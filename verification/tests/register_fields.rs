use rust_gpu_driver_lab::register_fields::{CommandOpCode, CommandWord, ControlValue, PowerMode, StatusSnapshot};
use rust_gpu_driver_lab::registers::GpuRegisterBlock;

#[test]
fn control_fields_are_decoded() {
    let control = ControlValue::from_raw(0b1011);
    assert!(control.enabled());
    assert!(control.irq_enabled());
    assert_eq!(control.power_mode(), PowerMode::LowPower);
}

#[test]
fn power_mode_can_be_changed() {
    let control = ControlValue::from_raw(0).with_power_mode(PowerMode::Performance);
    assert_eq!(control.power_mode(), PowerMode::Performance);
}

#[test]
fn control_updates_preserve_reserved_bits() {
    let original = 0x8000_0000;
    let control = ControlValue::from_raw(original).with_enabled(true).with_irq_enabled(true);
    assert_eq!(control.raw(), 0x8000_0009);
}

#[test]
fn disabling_irq_preserves_other_fields() {
    let control = ControlValue::from_raw(0x8000_000F).with_irq_enabled(false);
    assert_eq!(control.raw(), 0x8000_0007);
}

#[test]
fn modify_control_preserves_existing_bits() {
    let mut storage = [0x8000_0000, 0, 0];
    {
        let mut block = GpuRegisterBlock::from_slice(&mut storage).unwrap();
        let updated = block
            .modify_control(|control| control.with_enabled(true).with_power_mode(PowerMode::Normal))
            .unwrap();
        assert!(updated.enabled());
        assert_eq!(updated.power_mode(), PowerMode::Normal);
    }
    assert_eq!(storage[0], 0x8000_0005);
}

#[test]
fn status_snapshot_decodes_flags() {
    let status = StatusSnapshot::from_raw(0b0101);
    assert!(status.ready());
    assert!(!status.busy());
    assert!(status.fault());
}

#[test]
fn register_block_reads_typed_status() {
    let mut storage = [0, 0b0011, 0];
    let block = GpuRegisterBlock::from_slice(&mut storage).unwrap();
    let status = block.read_status().unwrap();
    assert!(status.ready());
    assert!(status.busy());
    assert!(!status.fault());
}

#[test]
fn command_word_encodes_fields() {
    let command = CommandWord::new(CommandOpCode::Kick, 7);
    assert_eq!(command.opcode_bits(), 1);
    assert_eq!(command.queue_id(), 7);
    assert_eq!(command.raw(), 0x0000_0701);
}

#[test]
fn issue_command_writes_command_register() {
    let mut storage = [0_u32; 3];
    {
        let mut block = GpuRegisterBlock::from_slice(&mut storage).unwrap();
        block.issue_command(CommandWord::new(CommandOpCode::Flush, 4)).unwrap();
    }
    assert_eq!(storage, [0, 0, 0x0000_0402]);
}

#[test]
fn power_mode_from_bits_ignores_high_bits() {
    assert_eq!(PowerMode::from(0u32), PowerMode::Idle);
    assert_eq!(PowerMode::from(1u32), PowerMode::LowPower);
    assert_eq!(PowerMode::from(6u32), PowerMode::Normal);
    assert_eq!(PowerMode::from(0xFFFF_FFFFu32), PowerMode::Performance);
}

#[test]
fn enabling_twice_and_disabling_round_trip() {
    let control = ControlValue::from_raw(0x1234_5670);
    let on = control.with_enabled(true);
    assert!(on.enabled());
    assert_eq!(on.with_enabled(true).raw(), on.raw());
    assert_eq!(on.with_enabled(false).raw(), control.raw());
    let mode = control.with_power_mode(PowerMode::Idle);
    assert_eq!(mode.raw(), 0x1234_5670 & !0b110);
    assert_eq!(mode.irq_enabled(), control.irq_enabled());
}

#[test]
fn command_word_round_trips_every_opcode() {
    let reset = CommandWord::new(CommandOpCode::Reset, 255);
    assert_eq!(reset.opcode_bits(), 3);
    assert_eq!(reset.queue_id(), 255);
    assert_eq!(reset.raw(), 0x0000_FF03);
}

#[test]
fn write_and_read_control_value() {
    let mut storage = [0_u32; 3];
    {
        let mut block = GpuRegisterBlock::from_slice(&mut storage).unwrap();
        block.write_control(ControlValue::from_raw(0b1000)).unwrap();
        assert!(block.read_control().unwrap().irq_enabled());
    }
    assert_eq!(storage[0], 0b1000);
}

#[test]
fn setting_a_control_bit_to_its_current_value_changes_nothing() {
    let value = ControlValue::from_raw(0b1_1010_1001);
    assert_eq!(value.with_enabled(true), value);
    assert_eq!(value.with_irq_enabled(true), value);
    let cleared = value.with_irq_enabled(false);
    assert_eq!(cleared.raw(), 0b1_1010_0001);
    assert_eq!(cleared.with_irq_enabled(false), cleared);
    assert_eq!(value.with_enabled(false).with_enabled(false), value.with_enabled(false));
}
