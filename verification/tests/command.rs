use rust_gpu_driver_lab::command::{CommandError, CommandId, CommandRange, Priority, RawCommand, ValidatedCommand};

fn valid_raw_command() -> RawCommand {
    RawCommand { id: 1, offset: 8, length: 16, priority: 2 }
}

#[test]
fn valid_raw_command_is_converted() {
    let command = ValidatedCommand::try_from(valid_raw_command()).unwrap();
    assert_eq!(command.id().get(), 1);
    assert_eq!(command.range().offset(), 8);
    assert_eq!(command.range().length(), 16);
    assert_eq!(command.range().end(), 24);
    assert_eq!(command.priority().get(), 2);
}

#[test]
fn validated_raw_command_with_incomplete_fields() {
    assert_eq!(ValidatedCommand::try_from(RawCommand::default()), Err(CommandError::ZeroCommandId));
}

#[test]
fn zero_command_id_is_rejected() {
    let mut raw = valid_raw_command();
    raw.id = 0;
    assert_eq!(ValidatedCommand::try_from(raw), Err(CommandError::ZeroCommandId));
}

#[test]
fn zero_length_is_rejected() {
    let mut raw = valid_raw_command();
    raw.length = 0;
    assert_eq!(ValidatedCommand::try_from(raw), Err(CommandError::ZeroLength));
}

#[test]
fn misaligned_offset_is_rejected() {
    let mut raw = valid_raw_command();
    raw.offset = 6;
    assert_eq!(
        ValidatedCommand::try_from(raw),
        Err(CommandError::MisalignedOffset { offset: 6, required_alignment: 4 })
    );
}

#[test]
fn command_overflowing_range_is_rejected() {
    let mut raw = valid_raw_command();
    raw.offset = usize::MAX - 3;
    raw.length = 8;
    assert_eq!(
        ValidatedCommand::try_from(raw),
        Err(CommandError::RangeOverflow { offset: usize::MAX - 3, length: 8 })
    );
}

#[test]
fn invalid_priority_is_rejected() {
    let mut raw = valid_raw_command();
    raw.priority = 4;
    assert_eq!(
        ValidatedCommand::try_from(raw),
        Err(CommandError::InvalidPriority { found: 4, minimum: 0, maximum: 3 })
    );
}

#[test]
fn priority_boundaries_are_valid() {
    assert_eq!(Priority::new(0).unwrap().get(), 0);
    assert_eq!(Priority::new(3).unwrap().get(), 3);
}

#[test]
fn maximum_u8_priority_is_rejected() {
    let result = Priority::new(u8::MAX);
    assert_eq!(
        result,
        Err(CommandError::InvalidPriority { found: 255, minimum: Priority::MIN, maximum: Priority::MAX })
    );
}

#[test]
fn command_id_zero_and_nonzero() {
    assert_eq!(CommandId::new(0), Err(CommandError::ZeroCommandId));
    assert_eq!(CommandId::new(7).unwrap().get(), 7);
}

#[test]
fn priority_try_from_matches_new() {
    assert_eq!(Priority::try_from(2u8).unwrap().get(), 2);
    assert_eq!(
        Priority::try_from(9u8),
        Err(CommandError::InvalidPriority { found: 9, minimum: 0, maximum: 3 })
    );
}

#[test]
fn range_checks_alignment_before_length() {
    // A misaligned, empty range reports the misalignment first.
    assert_eq!(
        CommandRange::new(2, 0),
        Err(CommandError::MisalignedOffset { offset: 2, required_alignment: 4 })
    );
    let range = CommandRange::new(4, 4).unwrap();
    assert_eq!(range.end(), 8);
}

#[test]
fn range_ending_exactly_at_usize_max_is_accepted() {
    let range = CommandRange::new(usize::MAX - 3, 3).unwrap();
    assert_eq!(range.end(), usize::MAX);
}

#[test]
fn identifier_is_checked_before_priority() {
    let raw = RawCommand { id: 0, offset: 0, length: 4, priority: 200 };
    assert_eq!(ValidatedCommand::try_from(raw), Err(CommandError::ZeroCommandId));
    let raw = RawCommand { id: 1, offset: 0, length: 0, priority: 200 };
    assert_eq!(ValidatedCommand::try_from(raw), Err(CommandError::ZeroLength));
}
