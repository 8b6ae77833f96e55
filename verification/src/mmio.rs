use vstd::prelude::*;

verus! {

#[derive(Debug, PartialEq, Eq)]
pub enum MmioError {
    EmptyRegion,
    NullBase,
    MisalignedBase { address: usize, required_alignment: usize },
    OutOfBounds { index: usize, register_count: usize },
}

/// The error that describing a register region starting at address `address`
/// with `register_count` registers reports, or `None` when the description
/// is acceptable: the base is non-null, the region non-empty, and the base
/// aligned for `u32`.
pub open spec fn raw_region_error(address: usize, register_count: usize) -> Option<MmioError> {
    if address == 0 {
        Some(MmioError::NullBase)
    } else if register_count == 0 {
        Some(MmioError::EmptyRegion)
    } else if address as nat % vstd::layout::align_of::<u32>() != 0 {
        Some(
            MmioError::MisalignedBase {
                address,
                required_alignment: vstd::layout::align_of::<u32>() as usize,
            },
        )
    } else {
        None
    }
}

/// A raw region is accepted exactly when its base is non-null, it holds at
/// least one register, and the base is a multiple of the alignment of `u32`;
/// a misaligned base is reported with that same alignment.
pub proof fn lemma_raw_region(address: usize, register_count: usize)
    ensures
        raw_region_error(address, register_count) is None <==> address != 0 && register_count > 0
            && address as nat % vstd::layout::align_of::<u32>() == 0,
        address != 0 && register_count > 0 && address as nat % vstd::layout::align_of::<u32>()
            != 0 ==> raw_region_error(address, register_count) == Some(
            MmioError::MisalignedBase {
                address,
                required_alignment: vstd::layout::align_of::<u32>() as usize,
            },
        ),
{
}

/// Check the address and size of a register region before it is accessed:
/// null, empty and misaligned regions are rejected.
pub fn check_raw_region(address: usize, register_count: usize) -> (r: Result<(), MmioError>)
    ensures
        match raw_region_error(address, register_count) {
            Some(e) => r == Err::<(), MmioError>(e),
            None => r is Ok,
        },
{
    if address == 0 {
        return Err(MmioError::NullBase);
    }
    if register_count == 0 {
        return Err(MmioError::EmptyRegion);
    }
    let alignment = core::mem::align_of::<u32>();
    if address % alignment != 0 {
        return Err(MmioError::MisalignedBase { address, required_alignment: alignment });
    }
    Ok(())
}

/// Lifetime-bound region of 32-bit registers.
///
/// The region provides bounds-checked access to its registers and cannot
/// outlive the storage it exclusively borrows.
#[derive(Debug)]
pub struct MmioRegion<'a> {
    registers: &'a mut [u32],
}

impl<'a> MmioRegion<'a> {
    /// The current register values.
    pub closed spec fn registers(&self) -> Seq<u32> {
        (*self.registers)@
    }

    /// Construct a region from exclusively borrowed storage.
    pub fn from_slice(registers: &'a mut [u32]) -> (r: Result<Self, MmioError>)
        ensures
            old(registers)@.len() == 0 ==> r == Err::<Self, MmioError>(MmioError::EmptyRegion),
            old(registers)@.len() > 0 ==> (r matches Ok(m) && m.registers() == old(registers)@),
    {
        if registers.len() == 0 {
            return Err(MmioError::EmptyRegion);
        }
        Ok(Self { registers })
    }

    pub fn len(&self) -> (r: usize)
        ensures
            r == self.registers().len(),
    {
        self.registers.len()
    }

    pub fn is_empty(&self) -> (r: bool)
        ensures
            r == (self.registers().len() == 0),
    {
        self.registers.len() == 0
    }

    /// Read the register at `index`.
    pub fn read(&self, index: usize) -> (r: Result<u32, MmioError>)
        ensures
            index < self.registers().len() ==> r == Ok::<u32, MmioError>(
                self.registers()[index as int],
            ),
            index >= self.registers().len() ==> r == Err::<u32, MmioError>(
                MmioError::OutOfBounds { index, register_count: self.registers().len() as usize },
            ),
    {
        match self.check_index(index) {
            Ok(()) => {},
            Err(e) => return Err(e),
        }
        Ok(self.registers[index])
    }

    /// Write `value` to the register at `index`; out-of-bounds writes change nothing.
    pub fn write(&mut self, index: usize, value: u32) -> (r: Result<(), MmioError>)
        ensures
            index < old(self).registers().len() ==> r is Ok && final(self).registers() == old(self).registers().update(index as int, value),
            index >= old(self).registers().len() ==> r == Err::<(), MmioError>(
                MmioError::OutOfBounds {
                    index,
                    register_count: old(self).registers().len() as usize,
                },
            ) && final(self).registers() == old(self).registers(),
    {
        match self.check_index(index) {
            Ok(()) => {},
            Err(e) => return Err(e),
        }
        self.registers[index] = value;
        Ok(())
    }

    fn check_index(&self, index: usize) -> (r: Result<(), MmioError>)
        ensures
            index < self.registers().len() ==> r is Ok,
            index >= self.registers().len() ==> r == Err::<(), MmioError>(
                MmioError::OutOfBounds { index, register_count: self.registers().len() as usize },
            ),
    {
        if index >= self.len() {
            return Err(MmioError::OutOfBounds { index, register_count: self.len() });
        }
        Ok(())
    }
}

} // verus!
