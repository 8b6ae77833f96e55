use crate::registers::{
    command, control, register_read, status, GpuRegisterBlock, RegisterBlockError, COMMAND_INDEX,
    CONTROL_INDEX, STATUS_INDEX,
};
use vstd::prelude::*;
use vstd::std_specs::convert::FromSpecImpl;

verus! {

#[derive(Debug, Clone, Copy, PartialEq, Eq)]
pub enum PowerMode {
    Idle,
    LowPower,
    Normal,
    Performance,
}

/// The power mode encoded by the two low bits of `bits`.
pub open spec fn power_mode_from_bits(bits: u32) -> PowerMode {
    let b = bits & 0b11u32;
    if b == 0 {
        PowerMode::Idle
    } else if b == 1 {
        PowerMode::LowPower
    } else if b == 2 {
        PowerMode::Normal
    } else {
        PowerMode::Performance
    }
}

/// The two-bit encoding of a power mode.
pub open spec fn power_mode_bits(mode: PowerMode) -> u32 {
    match mode {
        PowerMode::Idle => 0,
        PowerMode::LowPower => 1,
        PowerMode::Normal => 2,
        PowerMode::Performance => 3,
    }
}

/// Decoding is the inverse of encoding: a mode's two bits decode to that
/// mode, and decoding reads only the two low bits, encoding them back.
pub proof fn lemma_power_mode_encoding(mode: PowerMode, bits: u32)
    ensures
        power_mode_from_bits(power_mode_bits(mode)) == mode,
        power_mode_bits(power_mode_from_bits(bits)) == bits & 3u32,
        power_mode_bits(mode) <= 3,
{
    let b = bits & 3u32;
    assert(b <= 3u32 && b & 3u32 == b) by (bit_vector)
        requires
            b == bits & 3u32,
    ;
    assert(0u32 & 3u32 == 0u32 && 1u32 & 3u32 == 1u32 && 2u32 & 3u32 == 2u32 && 3u32 & 3u32
        == 3u32) by (bit_vector);
}

impl From<u32> for PowerMode {
    /// Decode the two low bits of `bits`; higher bits are ignored.
    fn from(bits: u32) -> (r: Self)
        ensures
            r == power_mode_from_bits(bits),
    {
        let b = bits & 0b11u32;
        if b == 0 {
            Self::Idle
        } else if b == 1 {
            Self::LowPower
        } else if b == 2 {
            Self::Normal
        } else {
            Self::Performance
        }
    }
}

impl FromSpecImpl<u32> for PowerMode {
    open spec fn obeys_from_spec() -> bool {
        true
    }

    open spec fn from_spec(v: u32) -> Self {
        power_mode_from_bits(v)
    }
}

impl PowerMode {
    fn bits(self) -> (r: u32)
        ensures
            r == power_mode_bits(self),
    {
        match self {
            PowerMode::Idle => 0,
            PowerMode::LowPower => 1,
            PowerMode::Normal => 2,
            PowerMode::Performance => 3,
        }
    }
}

pub const CONTROL_ENABLE_MASK: u32 = 0b00001u32;

pub const CONTROL_IRQ_ENABLE_MASK: u32 = 0b01000u32;

pub const CONTROL_POWERMODE_MASK: u32 = 0b00110u32;

pub const CONTROL_POWERMODE_SHIFT: u32 = 1u32;

/// The value of the control register.
#[derive(Debug, Clone, Copy, PartialEq, Eq)]
pub struct ControlValue {
    raw: u32,
}

impl ControlValue {
    pub closed spec fn spec_raw(self) -> u32 {
        self.raw
    }

    /// The control value with raw bits `raw`.
    pub closed spec fn spec_from_raw(raw: u32) -> ControlValue {
        ControlValue { raw }
    }

    /// A control value is its raw bits: decoding `raw` gives `raw` back, and
    /// every value is the decoding of its own bits.
    pub proof fn lemma_raw(v: ControlValue, raw: u32)
        ensures
            Self::spec_from_raw(raw).spec_raw() == raw,
            v == Self::spec_from_raw(v.spec_raw()),
    {
    }

    /// This value with the enable bit set to `enabled`.
    pub open spec fn spec_with_enabled(self, enabled: bool) -> ControlValue {
        Self::spec_from_raw(
            if enabled {
                self.spec_raw() | CONTROL_ENABLE_MASK
            } else {
                self.spec_raw() & !CONTROL_ENABLE_MASK
            },
        )
    }

    /// This value with the interrupt-enable bit set to `enabled`.
    pub open spec fn spec_with_irq_enabled(self, enabled: bool) -> ControlValue {
        Self::spec_from_raw(
            if enabled {
                self.spec_raw() | CONTROL_IRQ_ENABLE_MASK
            } else {
                self.spec_raw() & !CONTROL_IRQ_ENABLE_MASK
            },
        )
    }

    /// This value with the power-mode field replaced by `mode`.
    pub open spec fn spec_with_power_mode(self, mode: PowerMode) -> ControlValue {
        Self::spec_from_raw(
            (self.spec_raw() & !CONTROL_POWERMODE_MASK) | ((power_mode_bits(mode)
                << CONTROL_POWERMODE_SHIFT) & CONTROL_POWERMODE_MASK),
        )
    }

    /// Each control field reads exactly its own bits of the raw value: enable
    /// is bit 0, interrupt enable bit 3, and the power mode is encoded in
    /// bits 1 and 2.
    pub proof fn lemma_flags(v: ControlValue)
        ensures
            v.spec_enabled() == (v.spec_raw() & 1u32 != 0),
            v.spec_irq_enabled() == (v.spec_raw() & 8u32 != 0),
            power_mode_bits(v.spec_power_mode()) == (v.spec_raw() >> 1u32) & 3u32,
    {
        let x = v.spec_raw();
        assert(((x & 6u32) >> 1u32) & 3u32 == (x >> 1u32) & 3u32) by (bit_vector);
        lemma_power_mode_encoding(PowerMode::Idle, (x & 6u32) >> 1u32);
    }

    /// Each `with_*` update sets its own field to the requested value and
    /// keeps the other two fields.
    pub proof fn lemma_updates(v: ControlValue, enabled: bool, mode: PowerMode)
        ensures
            v.spec_with_enabled(enabled).spec_enabled() == enabled,
            v.spec_with_enabled(enabled).spec_irq_enabled() == v.spec_irq_enabled(),
            v.spec_with_enabled(enabled).spec_power_mode() == v.spec_power_mode(),
            v.spec_with_irq_enabled(enabled).spec_irq_enabled() == enabled,
            v.spec_with_irq_enabled(enabled).spec_enabled() == v.spec_enabled(),
            v.spec_with_irq_enabled(enabled).spec_power_mode() == v.spec_power_mode(),
            v.spec_with_power_mode(mode).spec_power_mode() == mode,
            v.spec_with_power_mode(mode).spec_enabled() == v.spec_enabled(),
            v.spec_with_power_mode(mode).spec_irq_enabled() == v.spec_irq_enabled(),
    {
        let x = v.spec_raw();
        let m = power_mode_bits(mode);
        let a: u32 = if enabled {
            x | 1u32
        } else {
            x & !1u32
        };
        let b: u32 = if enabled {
            x | 8u32
        } else {
            x & !8u32
        };
        let c: u32 = (x & !6u32) | ((m << 1u32) & 6u32);
        assert((a & 1u32 != 0) == enabled && a & 8u32 == x & 8u32 && a & 6u32 == x & 6u32)
            by (bit_vector)
            requires
                a == if enabled {
                    x | 1u32
                } else {
                    x & !1u32
                },
        ;
        assert((b & 8u32 != 0) == enabled && b & 1u32 == x & 1u32 && b & 6u32 == x & 6u32)
            by (bit_vector)
            requires
                b == if enabled {
                    x | 8u32
                } else {
                    x & !8u32
                },
        ;
        assert(((c & 6u32) >> 1u32) & 3u32 == m && c & 1u32 == x & 1u32 && c & 8u32 == x & 8u32)
            by (bit_vector)
            requires
                m <= 3u32,
                c == (x & !6u32) | ((m << 1u32) & 6u32),
        ;
        lemma_power_mode_encoding(mode, 0);
    }

    /// Setting the enable bit to the value it already has changes nothing, so
    /// setting it twice is the same as setting it once.
    pub proof fn lemma_with_enabled_idempotent(v: ControlValue, enabled: bool)
        ensures
            v.spec_enabled() == enabled ==> v.spec_with_enabled(enabled) == v,
            v.spec_with_enabled(enabled).spec_with_enabled(enabled) == v.spec_with_enabled(
                enabled,
            ),
    {
        let x = v.spec_raw();
        let y: u32 = if enabled {
            x | 1u32
        } else {
            x & !1u32
        };
        assert(((x & 1u32 != 0) == enabled ==> y == x) && (if enabled {
            y | 1u32
        } else {
            y & !1u32
        }) == y) by (bit_vector)
            requires
                y == if enabled {
                    x | 1u32
                } else {
                    x & !1u32
                },
        ;
    }

    /// Setting the interrupt-enable bit to the value it already has changes
    /// nothing, so setting it twice is the same as setting it once.
    pub proof fn lemma_with_irq_enabled_idempotent(v: ControlValue, enabled: bool)
        ensures
            v.spec_irq_enabled() == enabled ==> v.spec_with_irq_enabled(enabled) == v,
            v.spec_with_irq_enabled(enabled).spec_with_irq_enabled(enabled)
                == v.spec_with_irq_enabled(enabled),
    {
        let x = v.spec_raw();
        let y: u32 = if enabled {
            x | 8u32
        } else {
            x & !8u32
        };
        assert(((x & 8u32 != 0) == enabled ==> y == x) && (if enabled {
            y | 8u32
        } else {
            y & !8u32
        }) == y) by (bit_vector)
            requires
                y == if enabled {
                    x | 8u32
                } else {
                    x & !8u32
                },
        ;
    }

    pub open spec fn spec_enabled(self) -> bool {
        self.spec_raw() & CONTROL_ENABLE_MASK != 0
    }

    pub open spec fn spec_irq_enabled(self) -> bool {
        self.spec_raw() & CONTROL_IRQ_ENABLE_MASK != 0
    }

    pub open spec fn spec_power_mode(self) -> PowerMode {
        power_mode_from_bits((self.spec_raw() & CONTROL_POWERMODE_MASK) >> CONTROL_POWERMODE_SHIFT)
    }

    pub fn from_raw(raw: u32) -> (r: Self)
        ensures
            r == Self::spec_from_raw(raw),
            r.raw() == raw,
    {
        Self { raw }
    }

    #[verifier::when_used_as_spec(spec_raw)]
    pub fn raw(self) -> (r: u32)
        ensures
            r == self.spec_raw(),
    {
        self.raw
    }

    #[verifier::when_used_as_spec(spec_enabled)]
    pub fn enabled(self) -> (r: bool)
        ensures
            r == self.spec_enabled(),
    {
        self.raw & CONTROL_ENABLE_MASK != 0
    }

    #[verifier::when_used_as_spec(spec_irq_enabled)]
    pub fn irq_enabled(self) -> (r: bool)
        ensures
            r == self.spec_irq_enabled(),
    {
        self.raw & CONTROL_IRQ_ENABLE_MASK != 0
    }

    #[verifier::when_used_as_spec(spec_power_mode)]
    pub fn power_mode(self) -> (r: PowerMode)
        ensures
            r == self.spec_power_mode(),
    {
        let bits = (self.raw & CONTROL_POWERMODE_MASK) >> CONTROL_POWERMODE_SHIFT;
        PowerMode::from(bits)
    }

    /// Set or clear the enable bit; every other bit is kept.
    #[verifier::when_used_as_spec(spec_with_enabled)]
    pub fn with_enabled(self, enabled: bool) -> (r: Self)
        ensures
            r == self.spec_with_enabled(enabled),
            r.raw() == if enabled {
                self.raw() | CONTROL_ENABLE_MASK
            } else {
                self.raw() & !CONTROL_ENABLE_MASK
            },
            r.enabled() == enabled,
            r.raw() & !CONTROL_ENABLE_MASK == self.raw() & !CONTROL_ENABLE_MASK,
            r.irq_enabled() == self.irq_enabled(),
            r.power_mode() == self.power_mode(),
    {
        let mut this = self;
        if enabled {
            this.raw = this.raw | CONTROL_ENABLE_MASK;
        } else {
            this.raw = this.raw & !CONTROL_ENABLE_MASK;
        }
        let x = self.raw;
        let y = this.raw;
        assert(y & !1u32 == x & !1u32 && (y & 1u32 != 0) == enabled && (y & 8u32 == x & 8u32)
            && (y & 6u32 == x & 6u32)) by (bit_vector)
            requires
                y == if enabled {
                    x | 1u32
                } else {
                    x & !1u32
                },
        ;
        this
    }

    /// Set or clear the interrupt-enable bit; every other bit is kept.
    #[verifier::when_used_as_spec(spec_with_irq_enabled)]
    pub fn with_irq_enabled(self, enabled: bool) -> (r: Self)
        ensures
            r == self.spec_with_irq_enabled(enabled),
            r.raw() == if enabled {
                self.raw() | CONTROL_IRQ_ENABLE_MASK
            } else {
                self.raw() & !CONTROL_IRQ_ENABLE_MASK
            },
            r.irq_enabled() == enabled,
            r.raw() & !CONTROL_IRQ_ENABLE_MASK == self.raw() & !CONTROL_IRQ_ENABLE_MASK,
            r.enabled() == self.enabled(),
            r.power_mode() == self.power_mode(),
    {
        let mut this = self;
        if enabled {
            this.raw = this.raw | CONTROL_IRQ_ENABLE_MASK;
        } else {
            this.raw = this.raw & !CONTROL_IRQ_ENABLE_MASK;
        }
        let x = self.raw;
        let y = this.raw;
        assert(y & !8u32 == x & !8u32 && (y & 8u32 != 0) == enabled && (y & 1u32 == x & 1u32)
            && (y & 6u32 == x & 6u32)) by (bit_vector)
            requires
                y == if enabled {
                    x | 8u32
                } else {
                    x & !8u32
                },
        ;
        this
    }

    /// Replace the power-mode field; every other bit is kept.
    #[verifier::when_used_as_spec(spec_with_power_mode)]
    pub fn with_power_mode(self, mode: PowerMode) -> (r: Self)
        ensures
            r == self.spec_with_power_mode(mode),
            r.raw() == (self.raw() & !CONTROL_POWERMODE_MASK) | ((power_mode_bits(mode)
                << CONTROL_POWERMODE_SHIFT) & CONTROL_POWERMODE_MASK),
            r.power_mode() == mode,
            r.raw() & !CONTROL_POWERMODE_MASK == self.raw() & !CONTROL_POWERMODE_MASK,
            r.enabled() == self.enabled(),
            r.irq_enabled() == self.irq_enabled(),
    {
        let mut this = self;
        let m = mode.bits();
        this.raw = (this.raw & !CONTROL_POWERMODE_MASK) | ((m << CONTROL_POWERMODE_SHIFT)
            & CONTROL_POWERMODE_MASK);
        let x = self.raw;
        let y = this.raw;
        assert(y & !6u32 == x & !6u32 && ((y & 6u32) >> 1u32) & 3u32 == m && (y & 1u32 == x
            & 1u32) && (y & 8u32 == x & 8u32)) by (bit_vector)
            requires
                m <= 3u32,
                y == (x & !6u32) | ((m << 1u32) & 6u32),
        ;
        this
    }
}

/// Extensions of the register block that read and write typed fields
/// without duplicating the region.
impl<'a> GpuRegisterBlock<'a> {
    /// The control register's value.
    pub fn read_control(&self) -> (r: Result<ControlValue, RegisterBlockError>)
        requires
            self.wf(),
        ensures
            r == Ok::<ControlValue, RegisterBlockError>(
                ControlValue::spec_from_raw(self.registers()[CONTROL_INDEX as int]),
            ),
            r matches Ok(c) && c.raw() == self.registers()[CONTROL_INDEX as int],
    {
        match self.read(control()) {
            Ok(raw) => Ok(ControlValue::from_raw(raw)),
            Err(e) => Err(e),
        }
    }

    /// Store `value` into the control register; nothing else changes.
    pub fn write_control(&mut self, value: ControlValue) -> (r: Result<(), RegisterBlockError>)
        requires
            old(self).wf(),
        ensures
            r is Ok,
            final(self).registers() == old(self).registers().update(
                CONTROL_INDEX as int,
                value.raw(),
            ),
    {
        self.write(control(), value.raw())
    }

    /// Read the control register, apply `update` and store its result.
    pub fn modify_control<F>(&mut self, update: F) -> (r: Result<ControlValue, RegisterBlockError>)
        where F: FnOnce(ControlValue) -> ControlValue
        requires
            old(self).wf(),
            update.requires(
                (ControlValue::spec_from_raw(old(self).registers()[CONTROL_INDEX as int]),),
            ),
        ensures
            r matches Ok(updated) && update.ensures(
                (ControlValue::spec_from_raw(old(self).registers()[CONTROL_INDEX as int]),),
                updated,
            ) && final(self).registers() == old(self).registers().update(
                CONTROL_INDEX as int,
                updated.raw(),
            ),
    {
        let current = match self.read_control() {
            Ok(c) => c,
            Err(e) => return Err(e),
        };
        let updated = update(current);
        match self.write_control(updated) {
            Ok(()) => {},
            Err(e) => return Err(e),
        }
        Ok(updated)
    }
}

pub const STATUS_READY_MASK: u32 = 0b001u32;

pub const STATUS_BUSY_MASK: u32 = 0b010u32;

pub const STATUS_FAULT_MASK: u32 = 0b100u32;

/// The value of the status register at one moment.
#[derive(Debug, Clone, Copy, PartialEq, Eq)]
pub struct StatusSnapshot {
    raw: u32,
}

impl StatusSnapshot {
    pub closed spec fn spec_raw(self) -> u32 {
        self.raw
    }

    pub closed spec fn spec_from_raw(raw: u32) -> StatusSnapshot {
        StatusSnapshot { raw }
    }

    /// A snapshot is its raw bits: decoding `raw` gives `raw` back, and
    /// every snapshot is the decoding of its own bits.
    pub proof fn lemma_raw(v: StatusSnapshot, raw: u32)
        ensures
            Self::spec_from_raw(raw).spec_raw() == raw,
            v == Self::spec_from_raw(v.spec_raw()),
    {
    }

    /// Each status flag reads exactly its own bit of the raw value, whatever
    /// the other bits hold: ready is bit 0, busy bit 1 and fault bit 2.
    pub proof fn lemma_flags(v: StatusSnapshot)
        ensures
            v.spec_ready() == (v.spec_raw() & 1u32 != 0),
            v.spec_busy() == (v.spec_raw() & 2u32 != 0),
            v.spec_fault() == (v.spec_raw() & 4u32 != 0),
    {
    }

    pub open spec fn spec_ready(self) -> bool {
        self.spec_raw() & STATUS_READY_MASK != 0
    }

    pub open spec fn spec_busy(self) -> bool {
        self.spec_raw() & STATUS_BUSY_MASK != 0
    }

    pub open spec fn spec_fault(self) -> bool {
        self.spec_raw() & STATUS_FAULT_MASK != 0
    }

    pub fn from_raw(raw: u32) -> (r: Self)
        ensures
            r == Self::spec_from_raw(raw),
            r.spec_raw() == raw,
    {
        Self { raw }
    }

    #[verifier::when_used_as_spec(spec_ready)]
    pub fn ready(self) -> (r: bool)
        ensures
            r == self.spec_ready(),
    {
        self.raw & STATUS_READY_MASK != 0
    }

    #[verifier::when_used_as_spec(spec_busy)]
    pub fn busy(self) -> (r: bool)
        ensures
            r == self.spec_busy(),
    {
        self.raw & STATUS_BUSY_MASK != 0
    }

    #[verifier::when_used_as_spec(spec_fault)]
    pub fn fault(self) -> (r: bool)
        ensures
            r == self.spec_fault(),
    {
        self.raw & STATUS_FAULT_MASK != 0
    }
}

impl<'a> GpuRegisterBlock<'a> {
    /// A snapshot of the status register.
    pub fn read_status(&self) -> (r: Result<StatusSnapshot, RegisterBlockError>)
        ensures
            match register_read(self.registers(), STATUS_INDEX) {
                Ok(raw) => r == Ok::<StatusSnapshot, RegisterBlockError>(
                    StatusSnapshot::spec_from_raw(raw),
                ) && StatusSnapshot::spec_from_raw(raw).spec_raw() == raw,
                Err(e) => r == Err::<StatusSnapshot, RegisterBlockError>(e),
            },
            self.wf() ==> r == Ok::<StatusSnapshot, RegisterBlockError>(
                StatusSnapshot::spec_from_raw(self.registers()[STATUS_INDEX as int]),
            ),
    {
        match self.read(status()) {
            Ok(raw) => Ok(StatusSnapshot::from_raw(raw)),
            Err(e) => Err(e),
        }
    }
}

pub enum CommandOpCode {
    Kick,
    Flush,
    Reset,
}

/// The numeric code of a command opcode.
pub open spec fn opcode_value(opcode: CommandOpCode) -> u32 {
    match opcode {
        CommandOpCode::Kick => 1,
        CommandOpCode::Flush => 2,
        CommandOpCode::Reset => 3,
    }
}

impl CommandOpCode {
    fn bits(self) -> (r: u32)
        ensures
            r == opcode_value(self),
    {
        match self {
            CommandOpCode::Kick => 1,
            CommandOpCode::Flush => 2,
            CommandOpCode::Reset => 3,
        }
    }
}

pub const COMMAND_OPCODE_MASK: u32 = 0b1111u32;

pub const COMMAND_QUEUE_SHIFT: u32 = 8u32;

pub const COMMAND_QUEUE_MASK: u32 = 0xFF00u32;

/// A command word: an opcode in bits 0..4 and a queue identifier in bits 8..16.
///
/// Command words can only be built from an opcode and a queue identifier.
#[derive(Debug, Clone, Copy, PartialEq, Eq)]
pub struct CommandWord {
    raw: u32,
}

impl CommandWord {
    pub closed spec fn spec_raw(self) -> u32 {
        self.raw
    }

    pub open spec fn spec_queue_id(self) -> u8 {
        ((self.spec_raw() & COMMAND_QUEUE_MASK) >> COMMAND_QUEUE_SHIFT) as u8
    }

    pub open spec fn spec_opcode_bits(self) -> u32 {
        self.spec_raw() & COMMAND_OPCODE_MASK
    }

    /// Encode `opcode` and `queue_id`; both can be read back unchanged.
    pub fn new(opcode: CommandOpCode, queue_id: u8) -> (r: Self)
        ensures
            r.raw() == (opcode_value(opcode) & COMMAND_OPCODE_MASK) | ((queue_id as u32)
                << COMMAND_QUEUE_SHIFT),
            r.queue_id() == queue_id,
            r.opcode_bits() == opcode_value(opcode),
    {
        let b = opcode.bits();
        let q = queue_id as u32;
        let raw = (b & COMMAND_OPCODE_MASK) | (q << COMMAND_QUEUE_SHIFT);
        assert(((raw & 0xFF00u32) >> 8u32) == q && raw & 15u32 == b) by (bit_vector)
            requires
                b <= 3u32,
                q <= 255u32,
                raw == (b & 15u32) | (q << 8u32),
        ;
        Self { raw }
    }

    #[verifier::when_used_as_spec(spec_queue_id)]
    pub fn queue_id(self) -> (r: u8)
        ensures
            r == self.spec_queue_id(),
    {
        let v = (self.raw & COMMAND_QUEUE_MASK) >> COMMAND_QUEUE_SHIFT;
        let x = self.raw;
        assert((x & 0xFF00u32) >> 8u32 <= 255u32) by (bit_vector);
        v as u8
    }

    #[verifier::when_used_as_spec(spec_opcode_bits)]
    pub fn opcode_bits(self) -> (r: u32)
        ensures
            r == self.spec_opcode_bits(),
    {
        self.raw & COMMAND_OPCODE_MASK
    }

    #[verifier::when_used_as_spec(spec_raw)]
    pub fn raw(self) -> (r: u32)
        ensures
            r == self.spec_raw(),
    {
        self.raw
    }
}

impl<'a> GpuRegisterBlock<'a> {
    /// Write a command word to the command register; nothing else changes.
    pub fn issue_command(&mut self, command_word: CommandWord) -> (r: Result<(), RegisterBlockError>)
        requires
            old(self).wf(),
        ensures
            r is Ok,
            final(self).registers() == old(self).registers().update(
                COMMAND_INDEX as int,
                command_word.raw(),
            ),
    {
        self.write(command(), command_word.raw())
    }
}

} // verus!
