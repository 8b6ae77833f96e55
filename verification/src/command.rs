use vstd::prelude::*;
use vstd::std_specs::convert::TryFromSpecImpl;

verus! {

/// Identifier of a command; never zero.
#[derive(Debug, Clone, Copy, PartialEq, Eq, Hash)]
pub struct CommandId(u64);

impl CommandId {
    #[verifier::type_invariant]
    closed spec fn nonzero(self) -> bool {
        self.0 != 0
    }

    pub closed spec fn spec_get(self) -> u64 {
        self.0
    }

    pub fn new(raw: u64) -> (r: Result<Self, CommandError>)
        ensures
            raw == 0 ==> r == Err::<Self, CommandError>(CommandError::ZeroCommandId),
            raw != 0 ==> (r matches Ok(id) && id.get() == raw),
    {
        if raw == 0 {
            return Err(CommandError::ZeroCommandId);
        }
        Ok(Self(raw))
    }

    #[verifier::when_used_as_spec(spec_get)]
    pub fn get(self) -> (r: u64)
        ensures
            r == self.spec_get(),
            r != 0,
    {
        proof {
            use_type_invariant(&self);
        }
        self.0
    }
}

/// Scheduling priority in `Priority::MIN..=Priority::MAX`.
#[derive(Debug, Clone, Copy, PartialEq, Eq)]
pub struct Priority(u8);

impl Priority {
    pub const MIN: u8 = 0u8;

    pub const MAX: u8 = 3u8;

    #[verifier::type_invariant]
    closed spec fn in_range(self) -> bool {
        Self::MIN <= self.0 <= Self::MAX
    }

    pub closed spec fn spec_get(self) -> u8 {
        self.0
    }

    /// The priority with value `raw`.
    pub closed spec fn spec_from(raw: u8) -> Priority {
        Priority(raw)
    }

    pub fn new(raw: u8) -> (r: Result<Self, CommandError>)
        ensures
            raw > Self::MAX ==> r == Err::<Self, CommandError>(
                CommandError::InvalidPriority { found: raw, minimum: Self::MIN, maximum: Self::MAX },
            ),
            raw <= Self::MAX ==> (r matches Ok(p) && p.get() == raw && p == Self::spec_from(raw)),
    {
        if !(Self::MIN <= raw && raw <= Self::MAX) {
            return Err(
                CommandError::InvalidPriority { found: raw, minimum: Self::MIN, maximum: Self::MAX },
            );
        }
        Ok(Self(raw))
    }

    #[verifier::when_used_as_spec(spec_get)]
    pub fn get(self) -> (r: u8)
        ensures
            r == self.spec_get(),
            r <= Self::MAX,
    {
        proof {
            use_type_invariant(&self);
        }
        self.0
    }
}

impl TryFrom<u8> for Priority {
    type Error = CommandError;

    fn try_from(value: u8) -> (r: Result<Self, Self::Error>)
        ensures
            value > Self::MAX ==> r == Err::<Self, CommandError>(
                CommandError::InvalidPriority {
                    found: value,
                    minimum: Self::MIN,
                    maximum: Self::MAX,
                },
            ),
            value <= Self::MAX ==> (r matches Ok(p) && p.get() == value),
    {
        Self::new(value)
    }
}

impl TryFromSpecImpl<u8> for Priority {
    open spec fn obeys_try_from_spec() -> bool {
        true
    }

    open spec fn try_from_spec(v: u8) -> Result<Self, Self::Error> {
        if v > Self::MAX {
            Err(CommandError::InvalidPriority { found: v, minimum: Self::MIN, maximum: Self::MAX })
        } else {
            Ok(Self::spec_from(v))
        }
    }
}

/// A 4-byte-aligned, non-empty byte range whose end fits in `usize`.
#[derive(Debug, Clone, Copy, PartialEq, Eq)]
pub struct CommandRange {
    offset: usize,
    length: usize,
}

/// The error that command-range validation reports for `offset` and `length`,
/// checking alignment, then emptiness, then overflow; `None` when the range is valid.
pub open spec fn range_error(offset: usize, length: usize) -> Option<CommandError> {
    if offset % CommandRange::ALIGNMENT != 0 {
        Some(
            CommandError::MisalignedOffset {
                offset,
                required_alignment: CommandRange::ALIGNMENT,
            },
        )
    } else if length == 0 {
        Some(CommandError::ZeroLength)
    } else if offset + length > usize::MAX {
        Some(CommandError::RangeOverflow { offset, length })
    } else {
        None
    }
}

impl CommandRange {
    pub const ALIGNMENT: usize = 4usize;

    #[verifier::type_invariant]
    closed spec fn valid(self) -> bool {
        range_error(self.offset, self.length) is None
    }

    pub closed spec fn spec_offset(self) -> usize {
        self.offset
    }

    pub closed spec fn spec_length(self) -> usize {
        self.length
    }

    pub open spec fn spec_end(self) -> int {
        self.spec_offset() + self.spec_length()
    }

    pub fn new(offset: usize, length: usize) -> (r: Result<Self, CommandError>)
        ensures
            match range_error(offset, length) {
                Some(e) => r == Err::<Self, CommandError>(e),
                None => r matches Ok(c) && c.offset() == offset && c.length() == length,
            },
    {
        if offset % Self::ALIGNMENT != 0 {
            return Err(
                CommandError::MisalignedOffset { offset, required_alignment: Self::ALIGNMENT },
            );
        }
        if length == 0 {
            return Err(CommandError::ZeroLength);
        }
        match offset.checked_add(length) {
            None => {
                return Err(CommandError::RangeOverflow { offset, length });
            },
            Some(_) => {},
        }
        Ok(Self { offset, length })
    }

    #[verifier::when_used_as_spec(spec_offset)]
    pub fn offset(self) -> (r: usize)
        ensures
            r == self.spec_offset(),
            r % Self::ALIGNMENT == 0,
    {
        proof {
            use_type_invariant(&self);
        }
        self.offset
    }

    #[verifier::when_used_as_spec(spec_length)]
    pub fn length(self) -> (r: usize)
        ensures
            r == self.spec_length(),
            r > 0,
    {
        proof {
            use_type_invariant(&self);
        }
        self.length
    }

    /// One past the last byte of the range; never overflows.
    pub fn end(self) -> (r: usize)
        ensures
            r == self.spec_end(),
    {
        proof {
            use_type_invariant(&self);
        }
        self.offset + self.length
    }
}

/// An untrusted command as it arrives from a client.
#[derive(Debug, Clone, Copy, PartialEq, Eq, Default)]
pub struct RawCommand {
    pub id: u64,
    pub offset: usize,
    pub length: usize,
    pub priority: u8,
}

/// A command whose identifier, range and priority have all been checked.
#[derive(Debug, Clone, Copy, PartialEq, Eq)]
pub struct ValidatedCommand {
    id: CommandId,
    range: CommandRange,
    priority: Priority,
}

/// The error that validating `raw` reports, checking the identifier, the range
/// and then the priority; `None` when the command is valid.
pub open spec fn command_error(raw: RawCommand) -> Option<CommandError> {
    if raw.id == 0 {
        Some(CommandError::ZeroCommandId)
    } else if range_error(raw.offset, raw.length) is Some {
        range_error(raw.offset, raw.length)
    } else if raw.priority > Priority::MAX {
        Some(
            CommandError::InvalidPriority {
                found: raw.priority,
                minimum: Priority::MIN,
                maximum: Priority::MAX,
            },
        )
    } else {
        None
    }
}

impl ValidatedCommand {
    pub closed spec fn spec_id(&self) -> CommandId {
        self.id
    }

    pub closed spec fn spec_range(&self) -> CommandRange {
        self.range
    }

    pub closed spec fn spec_priority(&self) -> Priority {
        self.priority
    }

    /// The command carrying the fields of `raw`.
    pub closed spec fn spec_from_raw(raw: RawCommand) -> ValidatedCommand {
        ValidatedCommand {
            id: CommandId(raw.id),
            range: CommandRange { offset: raw.offset, length: raw.length },
            priority: Priority(raw.priority),
        }
    }

    /// This command carries exactly the fields of `raw`.
    pub open spec fn matches_raw(&self, raw: RawCommand) -> bool {
        &&& self.id().get() == raw.id
        &&& self.range().offset() == raw.offset
        &&& self.range().length() == raw.length
        &&& self.priority().get() == raw.priority
    }

    /// The command built from `raw` carries the fields of `raw`, and it is the
    /// only command that does.
    pub proof fn lemma_from_raw(raw: RawCommand, c: ValidatedCommand)
        ensures
            Self::spec_from_raw(raw).matches_raw(raw),
            c.matches_raw(raw) ==> c == Self::spec_from_raw(raw),
    {
    }

    #[verifier::when_used_as_spec(spec_id)]
    pub fn id(&self) -> (r: CommandId)
        ensures
            r == self.spec_id(),
    {
        self.id
    }

    #[verifier::when_used_as_spec(spec_range)]
    pub fn range(&self) -> (r: CommandRange)
        ensures
            r == self.spec_range(),
    {
        self.range
    }

    #[verifier::when_used_as_spec(spec_priority)]
    pub fn priority(&self) -> (r: Priority)
        ensures
            r == self.spec_priority(),
    {
        self.priority
    }
}

impl TryFrom<RawCommand> for ValidatedCommand {
    type Error = CommandError;

    fn try_from(raw: RawCommand) -> (r: Result<Self, Self::Error>)
        ensures
            match command_error(raw) {
                Some(e) => r == Err::<Self, CommandError>(e),
                None => r matches Ok(c) && c.matches_raw(raw) && c == Self::spec_from_raw(raw),
            },
    {
        let id = match CommandId::new(raw.id) {
            Ok(id) => id,
            Err(e) => return Err(e),
        };
        let range = match CommandRange::new(raw.offset, raw.length) {
            Ok(range) => range,
            Err(e) => return Err(e),
        };
        let priority = match Priority::try_from(raw.priority) {
            Ok(p) => p,
            Err(e) => return Err(e),
        };
        Ok(Self { id, range, priority })
    }
}

impl TryFromSpecImpl<RawCommand> for ValidatedCommand {
    open spec fn obeys_try_from_spec() -> bool {
        true
    }

    open spec fn try_from_spec(v: RawCommand) -> Result<Self, Self::Error> {
        match command_error(v) {
            Some(e) => Err(e),
            None => Ok(Self::spec_from_raw(v)),
        }
    }
}

#[derive(Debug, PartialEq, Eq)]
pub enum CommandError {
    ZeroCommandId,
    ZeroLength,
    MisalignedOffset { offset: usize, required_alignment: usize },
    RangeOverflow { offset: usize, length: usize },
    InvalidPriority { found: u8, minimum: u8, maximum: u8 },
}

} // verus!
