use crate::registers::{
    int_ack, int_status, register_read, GpuRegisterBlock, RegisterBlockError, INT_ACK_INDEX,
    INT_STATUS_INDEX,
};
use core::ops::{BitOr, BitOrAssign};
use vstd::prelude::*;
use vstd::std_specs::convert::FromSpecImpl;
use vstd::std_specs::ops::BitOrSpecImpl;

verus! {

#[derive(Debug, PartialEq, Eq)]
pub enum InterruptError {
    Register(RegisterBlockError),
}

impl From<RegisterBlockError> for InterruptError {
    fn from(error: RegisterBlockError) -> (r: Self)
        ensures
            r == InterruptError::Register(error),
    {
        Self::Register(error)
    }
}

impl FromSpecImpl<RegisterBlockError> for InterruptError {
    open spec fn obeys_from_spec() -> bool {
        true
    }

    open spec fn from_spec(v: RegisterBlockError) -> Self {
        InterruptError::Register(v)
    }
}

pub const COMMAND_COMPLETE_MASK: u32 = 0b0001u32;

pub const QUEUE_FAULT_MASK: u32 = 0b0010u32;

pub const THERMAL_WARNING_MASK: u32 = 0b0100u32;

pub const FIRMWARE_FAULT_MASK: u32 = 0b1000u32;

/// The union of the four event masks.
pub const VALID_INTERRUPT_MASK: u32 = 0b1111u32;

/// A set of interrupt events; only the known event bits can be set.
#[derive(Debug, Clone, Copy, PartialEq, Eq)]
pub struct InterruptEvents {
    bits: u32,
}

impl InterruptEvents {
    #[verifier::type_invariant]
    closed spec fn known_bits_only(self) -> bool {
        self.bits <= VALID_INTERRUPT_MASK
    }

    pub closed spec fn spec_bits(self) -> u32 {
        self.bits
    }

    pub open spec fn spec_contains(self, event: Self) -> bool {
        (self.spec_bits() & event.spec_bits()) == event.spec_bits()
    }

    pub open spec fn spec_is_empty(self) -> bool {
        self.spec_bits() == 0
    }

    /// The empty event set.
    pub fn none() -> (r: Self)
        ensures
            r.bits() == 0,
    {
        Self { bits: 0 }
    }

    pub fn command_complete() -> (r: Self)
        ensures
            r.bits() == COMMAND_COMPLETE_MASK,
    {
        Self { bits: COMMAND_COMPLETE_MASK }
    }

    pub fn queue_fault() -> (r: Self)
        ensures
            r.bits() == QUEUE_FAULT_MASK,
    {
        Self { bits: QUEUE_FAULT_MASK }
    }

    pub fn thermal_warning() -> (r: Self)
        ensures
            r.bits() == THERMAL_WARNING_MASK,
    {
        Self { bits: THERMAL_WARNING_MASK }
    }

    pub fn firmware_fault() -> (r: Self)
        ensures
            r.bits() == FIRMWARE_FAULT_MASK,
    {
        Self { bits: FIRMWARE_FAULT_MASK }
    }

    /// Every event of `event` is in this set.
    #[verifier::when_used_as_spec(spec_contains)]
    pub fn contains(self, event: Self) -> (r: bool)
        ensures
            r == self.spec_contains(event),
    {
        (self.bits & event.bits) == event.bits
    }

    #[verifier::when_used_as_spec(spec_bits)]
    pub fn bits(self) -> (r: u32)
        ensures
            r == self.spec_bits(),
            r <= VALID_INTERRUPT_MASK,
    {
        proof {
            use_type_invariant(&self);
        }
        self.bits
    }

    #[verifier::when_used_as_spec(spec_is_empty)]
    pub fn is_empty(self) -> (r: bool)
        ensures
            r == self.spec_is_empty(),
    {
        self.bits == 0
    }

    /// The events recorded in a raw status word; unknown bits are dropped.
    pub(crate) fn from_status_bits(bits: u32) -> (r: Self)
        ensures
            r.bits() == bits & VALID_INTERRUPT_MASK,
    {
        let masked = bits & VALID_INTERRUPT_MASK;
        assert(masked <= 15u32) by (bit_vector)
            requires
                masked == bits & 15u32,
        ;
        Self { bits: masked }
    }

    /// The union of two event sets.
    pub closed spec fn spec_union(self, rhs: Self) -> Self {
        InterruptEvents { bits: self.bits | rhs.bits }
    }

    /// A set contains another exactly when adding the other's events to it
    /// changes nothing, that is when every event bit of the other is set in
    /// it. So every set contains itself and the empty set, a union contains
    /// both its parts, and containment is transitive.
    pub proof fn lemma_contains(a: Self, b: Self, c: Self)
        ensures
            a.spec_contains(b) <==> (a.spec_bits() | b.spec_bits()) == a.spec_bits(),
            a.spec_contains(b) <==> a.spec_union(b) == a,
            a.spec_contains(a),
            b.spec_bits() == 0 ==> a.spec_contains(b),
            a.spec_union(b).spec_contains(a) && a.spec_union(b).spec_contains(b),
            a.spec_contains(b) && b.spec_contains(c) ==> a.spec_contains(c),
    {
        let (x, y, z) = (a.bits, b.bits, c.bits);
        assert(((x & y) == y) == ((x | y) == x) && (x & x) == x && (y == 0u32 ==> (x & y) == y) && ((x | y)
            & x) == x && ((x | y) & y) == y && ((x & y) == y && (y & z) == z ==> (x & z) == z))
            by (bit_vector);
    }

    /// The union of two event sets.
    fn union(self, rhs: Self) -> (r: Self)
        ensures
            r.bits() == self.bits() | rhs.bits(),
            r == self.spec_union(rhs),
    {
        proof {
            use_type_invariant(&self);
            use_type_invariant(&rhs);
        }
        let (a, b) = (self.bits, rhs.bits);
        assert(a | b <= 15u32) by (bit_vector)
            requires
                a <= 15u32,
                b <= 15u32,
        ;
        Self { bits: a | b }
    }
}

impl BitOr for InterruptEvents {
    type Output = Self;

    fn bitor(self, rhs: Self) -> (r: Self::Output)
        ensures
            r.bits() == self.bits() | rhs.bits(),
    {
        self.union(rhs)
    }
}

impl BitOrSpecImpl for InterruptEvents {
    open spec fn obeys_bitor_spec() -> bool {
        true
    }

    open spec fn bitor_req(self, rhs: Self) -> bool {
        true
    }

    open spec fn bitor_spec(self, rhs: Self) -> Self {
        self.spec_union(rhs)
    }
}

impl BitOrAssign for InterruptEvents {
    fn bitor_assign(&mut self, rhs: Self)
        ensures
            final(self).bits() == old(self).bits() | rhs.bits(),
    {
        *self = self.union(rhs);
    }
}

/// The raw value of the interrupt-status register at one moment.
#[derive(Debug, Clone, Copy, PartialEq, Eq)]
pub struct InterruptSnapshot {
    raw: u32,
}

impl InterruptSnapshot {
    pub closed spec fn spec_raw(self) -> u32 {
        self.raw
    }

    pub closed spec fn spec_from_raw(raw: u32) -> InterruptSnapshot {
        InterruptSnapshot { raw }
    }

    /// A snapshot is its raw bits: decoding `raw` gives `raw` back, and
    /// every snapshot is the decoding of its own bits.
    pub proof fn lemma_raw(v: InterruptSnapshot, raw: u32)
        ensures
            Self::spec_from_raw(raw).spec_raw() == raw,
            v == Self::spec_from_raw(v.spec_raw()),
    {
    }

    pub fn from_raw(raw: u32) -> (r: Self)
        ensures
            r == Self::spec_from_raw(raw),
            r.raw() == raw,
    {
        Self { raw }
    }

    #[verifier::when_used_as_spec(spec_raw)]
    pub fn raw(self) -> (r: u32)
        ensures
            r == self.spec_raw(),
    {
        self.raw
    }

    /// The known events in the snapshot.
    pub fn events(self) -> (r: InterruptEvents)
        ensures
            r.bits() == self.raw() & VALID_INTERRUPT_MASK,
    {
        InterruptEvents::from_status_bits(self.raw)
    }

    /// Every event of `event` is pending in the snapshot.
    pub fn has(self, event: InterruptEvents) -> (r: bool)
        ensures
            r == ((self.raw() & VALID_INTERRUPT_MASK) & event.bits() == event.bits()),
    {
        self.events().contains(event)
    }
}

impl<'a> GpuRegisterBlock<'a> {
    /// A snapshot of the interrupt-status register.
    pub fn read_interrupt_status(&self) -> (r: Result<InterruptSnapshot, RegisterBlockError>)
        ensures
            match register_read(self.registers(), INT_STATUS_INDEX) {
                Ok(raw) => r == Ok::<InterruptSnapshot, RegisterBlockError>(
                    InterruptSnapshot::spec_from_raw(raw),
                ) && InterruptSnapshot::spec_from_raw(raw).spec_raw() == raw,
                Err(e) => r == Err::<InterruptSnapshot, RegisterBlockError>(e),
            },
    {
        match self.read(int_status()) {
            Ok(raw) => Ok(InterruptSnapshot::from_raw(raw)),
            Err(e) => Err(e),
        }
    }

    /// Acknowledge exactly `events` by writing their mask to the
    /// interrupt-acknowledge register.
    pub fn ack_interrupts(&mut self, events: InterruptEvents) -> (r: Result<(), RegisterBlockError>)
        ensures
            INT_ACK_INDEX < old(self).registers().len() ==> r is Ok && final(self).registers()
                == old(self).registers().update(INT_ACK_INDEX as int, events.bits()),
            INT_ACK_INDEX >= old(self).registers().len() ==> r == Err::<(), RegisterBlockError>(
                RegisterBlockError::Mmio(
                    crate::mmio::MmioError::OutOfBounds {
                        index: INT_ACK_INDEX,
                        register_count: old(self).registers().len() as usize,
                    },
                ),
            ) && final(self).registers() == old(self).registers(),
    {
        self.write(int_ack(), events.bits())
    }
}

/// Reads and acknowledges interrupts through a register block.
#[derive(Debug)]
pub struct InterruptController;

impl Default for InterruptController {
    fn default() -> (r: Self) {
        InterruptController::new()
    }
}

impl InterruptController {
    pub fn new() -> (r: Self) {
        Self
    }

    /// The pending interrupts.
    pub fn pending(&self, registers: &GpuRegisterBlock<'_>) -> (r: Result<
        InterruptSnapshot,
        InterruptError,
    >)
        ensures
            match register_read(registers.registers(), INT_STATUS_INDEX) {
                Ok(raw) => r == Ok::<InterruptSnapshot, InterruptError>(
                    InterruptSnapshot::spec_from_raw(raw),
                ) && InterruptSnapshot::spec_from_raw(raw).spec_raw() == raw,
                Err(e) => r == Err::<InterruptSnapshot, InterruptError>(
                    InterruptError::Register(e),
                ),
            },
    {
        match registers.read_interrupt_status() {
            Ok(s) => Ok(s),
            Err(e) => Err(InterruptError::Register(e)),
        }
    }

    /// Acknowledge exactly `events`.
    pub fn ack(&self, registers: &mut GpuRegisterBlock<'_>, events: InterruptEvents) -> (r: Result<
        (),
        InterruptError,
    >)
        ensures
            INT_ACK_INDEX < old(registers).registers().len() ==> r is Ok && final(registers).registers() == old(registers).registers().update(
                INT_ACK_INDEX as int,
                events.bits(),
            ),
            INT_ACK_INDEX >= old(registers).registers().len() ==> r == Err::<(), InterruptError>(
                InterruptError::Register(
                    RegisterBlockError::Mmio(
                        crate::mmio::MmioError::OutOfBounds {
                            index: INT_ACK_INDEX,
                            register_count: old(registers).registers().len() as usize,
                        },
                    ),
                ),
            ) && final(registers).registers() == old(registers).registers(),
    {
        match registers.ack_interrupts(events) {
            Ok(()) => Ok(()),
            Err(e) => Err(InterruptError::Register(e)),
        }
    }
}

} // verus!
