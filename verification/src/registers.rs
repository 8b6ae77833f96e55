use crate::mmio::{MmioError, MmioRegion};
use std::marker::PhantomData;
use vstd::prelude::*;
use vstd::std_specs::convert::FromSpecImpl;

mod sealed;

verus! {

/// A register access capability.
pub trait RegisterAccess: sealed::Sealed + core::fmt::Debug {

}

pub trait ReadableAccess: RegisterAccess {

}

pub trait WritableAccess: RegisterAccess {

}

#[derive(Debug, Clone, Copy, PartialEq, Eq)]
pub struct ReadOnly;

#[derive(Debug, Clone, Copy, PartialEq, Eq)]
pub struct WriteOnly;

#[derive(Debug, Clone, Copy, PartialEq, Eq)]
pub struct ReadWrite;

impl sealed::Sealed for ReadOnly {

}

impl sealed::Sealed for WriteOnly {

}

impl sealed::Sealed for ReadWrite {

}

impl RegisterAccess for ReadOnly {

}

impl RegisterAccess for WriteOnly {

}

impl RegisterAccess for ReadWrite {

}

impl ReadableAccess for ReadOnly {

}

impl WritableAccess for WriteOnly {

}

impl ReadableAccess for ReadWrite {

}

impl WritableAccess for ReadWrite {

}

/// A register: its index in the block, and the access its marker grants.
#[derive(Debug, Copy, PartialEq, Eq)]
pub struct Register<A> where A: RegisterAccess {
    index: usize,
    market: PhantomData<A>,
}

impl<A> Clone for Register<A> where A: RegisterAccess {
    fn clone(&self) -> (r: Self)
        ensures
            r == *self,
    {
        Register { index: self.index, market: PhantomData }
    }
}

impl<A> Register<A> where A: RegisterAccess {
    pub closed spec fn spec_index(self) -> usize {
        self.index
    }

    fn new(index: usize) -> (r: Self)
        ensures
            r.spec_index() == index,
    {
        Self { index, market: PhantomData }
    }

    fn index(self) -> (r: usize)
        ensures
            r == self.spec_index(),
    {
        self.index
    }
}

/// Index of the control register.
pub const CONTROL_INDEX: usize = 0usize;

/// Index of the status register.
pub const STATUS_INDEX: usize = 1usize;

/// Index of the command register.
pub const COMMAND_INDEX: usize = 2usize;

/// Index of the interrupt-status register.
pub const INT_STATUS_INDEX: usize = 3usize;

/// Index of the interrupt-acknowledge register.
pub const INT_ACK_INDEX: usize = 4usize;

/// The read-write control register.
pub fn control() -> (r: Register<ReadWrite>)
    ensures
        r.spec_index() == CONTROL_INDEX,
{
    Register::new(CONTROL_INDEX)
}

/// The read-only status register.
pub fn status() -> (r: Register<ReadOnly>)
    ensures
        r.spec_index() == STATUS_INDEX,
{
    Register::new(STATUS_INDEX)
}

/// The write-only command register.
pub fn command() -> (r: Register<WriteOnly>)
    ensures
        r.spec_index() == COMMAND_INDEX,
{
    Register::new(COMMAND_INDEX)
}

/// The read-only interrupt-status register.
pub fn int_status() -> (r: Register<ReadOnly>)
    ensures
        r.spec_index() == INT_STATUS_INDEX,
{
    Register::new(INT_STATUS_INDEX)
}

/// The write-only interrupt-acknowledge register.
pub fn int_ack() -> (r: Register<WriteOnly>)
    ensures
        r.spec_index() == INT_ACK_INDEX,
{
    Register::new(INT_ACK_INDEX)
}

/// How many registers a register block needs at least.
pub const REQUIRED_REGISTERS: usize = 3usize;

#[derive(Debug, PartialEq, Eq)]
pub enum RegisterBlockError {
    RegionTooSmall { required: usize, actual: usize },
    Mmio(MmioError),
}

impl From<MmioError> for RegisterBlockError {
    fn from(error: MmioError) -> (r: Self)
        ensures
            r == RegisterBlockError::Mmio(error),
    {
        Self::Mmio(error)
    }
}

impl FromSpecImpl<MmioError> for RegisterBlockError {
    open spec fn obeys_from_spec() -> bool {
        true
    }

    open spec fn from_spec(v: MmioError) -> Self {
        RegisterBlockError::Mmio(v)
    }
}

/// The typed register interface of a GPU, over a region of at least
/// `REQUIRED_REGISTERS` registers.
#[derive(Debug)]
pub struct GpuRegisterBlock<'a> {
    mmio: MmioRegion<'a>,
}

/// What reading register `index` of a block holding `regs` gives.
pub open spec fn register_read(regs: Seq<u32>, index: usize) -> Result<u32, RegisterBlockError> {
    if index < regs.len() {
        Ok(regs[index as int])
    } else {
        Err(
            RegisterBlockError::Mmio(
                MmioError::OutOfBounds { index, register_count: regs.len() as usize },
            ),
        )
    }
}

/// A register write is read back from the register written, and leaves
/// every other register as it was.
pub proof fn lemma_write_then_read(regs: Seq<u32>, written: usize, value: u32, read: usize)
    requires
        written < regs.len(),
    ensures
        register_read(regs.update(written as int, value), read) == if read == written {
            Ok::<u32, RegisterBlockError>(value)
        } else {
            register_read(regs, read)
        },
{
}

impl<'a> GpuRegisterBlock<'a> {
    /// The current register values.
    pub closed spec fn registers(&self) -> Seq<u32> {
        self.mmio.registers()
    }

    pub open spec fn wf(&self) -> bool {
        self.registers().len() >= REQUIRED_REGISTERS
    }

    pub fn from_mmio(mmio: MmioRegion<'a>) -> (r: Result<Self, RegisterBlockError>)
        ensures
            mmio.registers().len() < REQUIRED_REGISTERS ==> r == Err::<Self, RegisterBlockError>(
                RegisterBlockError::RegionTooSmall {
                    required: REQUIRED_REGISTERS,
                    actual: mmio.registers().len() as usize,
                },
            ),
            mmio.registers().len() >= REQUIRED_REGISTERS ==> (r matches Ok(b) && b.registers()
                == mmio.registers()),
    {
        match GpuRegisterBlock::check_register_len(mmio.len()) {
            Ok(()) => {},
            Err(e) => return Err(e),
        }
        Ok(Self { mmio })
    }

    pub fn from_slice(registers: &'a mut [u32]) -> (r: Result<Self, RegisterBlockError>)
        ensures
            old(registers)@.len() < REQUIRED_REGISTERS ==> r == Err::<Self, RegisterBlockError>(
                RegisterBlockError::RegionTooSmall {
                    required: REQUIRED_REGISTERS,
                    actual: old(registers)@.len() as usize,
                },
            ),
            old(registers)@.len() >= REQUIRED_REGISTERS ==> (r matches Ok(b) && b.registers()
                == old(registers)@),
    {
        match GpuRegisterBlock::check_register_len(registers.len()) {
            Ok(()) => {},
            Err(e) => return Err(e),
        }
        match MmioRegion::from_slice(registers) {
            Ok(mmio) => Ok(Self { mmio }),
            Err(e) => Err(RegisterBlockError::Mmio(e)),
        }
    }

    fn check_register_len(len: usize) -> (r: Result<(), RegisterBlockError>)
        ensures
            len < REQUIRED_REGISTERS ==> r == Err::<(), RegisterBlockError>(
                RegisterBlockError::RegionTooSmall { required: REQUIRED_REGISTERS, actual: len },
            ),
            len >= REQUIRED_REGISTERS ==> r is Ok,
    {
        if len < REQUIRED_REGISTERS {
            return Err(RegisterBlockError::RegionTooSmall { required: REQUIRED_REGISTERS, actual: len });
        }
        Ok(())
    }

    /// Read a readable register; write-only registers cannot be read.
    pub fn read<A>(&self, register: Register<A>) -> (r: Result<u32, RegisterBlockError>) where
        A: ReadableAccess,
        ensures
            r == register_read(self.registers(), register.spec_index()),
    {
        match self.mmio.read(register.index()) {
            Ok(v) => Ok(v),
            Err(e) => Err(RegisterBlockError::Mmio(e)),
        }
    }

    /// Write a writable register; read-only registers cannot be written.
    /// Only the addressed register changes.
    pub fn write<A>(&mut self, register: Register<A>, value: u32) -> (r: Result<
        (),
        RegisterBlockError,
    >) where A: WritableAccess
        ensures
            register.spec_index() < old(self).registers().len() ==> r is Ok && final(self).registers() == old(self).registers().update(register.spec_index() as int, value),
            register.spec_index() >= old(self).registers().len() ==> r == Err::<
                (),
                RegisterBlockError,
            >(
                RegisterBlockError::Mmio(
                    MmioError::OutOfBounds {
                        index: register.spec_index(),
                        register_count: old(self).registers().len() as usize,
                    },
                ),
            ) && final(self).registers() == old(self).registers(),
    {
        match self.mmio.write(register.index(), value) {
            Ok(()) => Ok(()),
            Err(e) => Err(RegisterBlockError::Mmio(e)),
        }
    }
}

} // verus!
