use rust_gpu_driver_lab::interrupts::{InterruptController, InterruptError, InterruptEvents, InterruptSnapshot};
use rust_gpu_driver_lab::mmio::MmioError;
use rust_gpu_driver_lab::registers::{GpuRegisterBlock, RegisterBlockError};

#[test]
fn event_constants_have_correct_bits() {
    assert_eq!(InterruptEvents::command_complete().bits(), 0b0001);
    assert_eq!(InterruptEvents::queue_fault().bits(), 0b0010);
    assert_eq!(InterruptEvents::thermal_warning().bits(), 0b0100);
    assert_eq!(InterruptEvents::firmware_fault().bits(), 0b1000);
}

#[test]
fn combined_events_are_valid() {
    let events = InterruptEvents::command_complete() | InterruptEvents::queue_fault();
    assert_eq!(events.bits(), 0b0011);
}

#[test]
fn contains_selected_events() {
    let events = InterruptEvents::command_complete() | InterruptEvents::thermal_warning();
    assert!(events.contains(InterruptEvents::command_complete()));
    assert!(!events.contains(InterruptEvents::queue_fault()));
}

#[test]
fn unkown_interrupt_bits_are_filtered() {
    let snapshot = InterruptSnapshot::from_raw(0x8000_0001);
    assert_eq!(snapshot.events().bits(), 0b0001);
    assert_eq!(snapshot.raw(), 0x8000_0001);
}

#[test]
fn read_pending_interrupts() {
    let mut storage = [0, 0, 0, 0b0101, 0];
    let block = GpuRegisterBlock::from_slice(&mut storage).unwrap();
    let snapshot = block.read_interrupt_status().unwrap();
    assert!(snapshot.has(InterruptEvents::command_complete()));
    assert!(snapshot.has(InterruptEvents::thermal_warning()));
}

#[test]
fn acknowledge_writes_exact_event_mask() {
    let mut storage = [0_u32; 5];
    {
        let mut block = GpuRegisterBlock::from_slice(&mut storage).unwrap();
        block.ack_interrupts(InterruptEvents::command_complete() | InterruptEvents::queue_fault()).unwrap();
    }
    assert_eq!(storage[4], 0b0011);
}

#[test]
fn selective_acknowledgement_is_exact() {
    let mut storage = [0_u32; 5];
    {
        let mut block = GpuRegisterBlock::from_slice(&mut storage).unwrap();
        block.ack_interrupts(InterruptEvents::thermal_warning()).unwrap();
    }
    assert_eq!(storage[4], 0b0100);
}

#[test]
fn acknowledging_none_writes_zero() {
    let mut storage = [0_u32; 5];
    {
        let mut block = GpuRegisterBlock::from_slice(&mut storage).unwrap();
        block.ack_interrupts(InterruptEvents::none()).unwrap();
    }
    assert_eq!(storage[4], 0);
}

#[test]
fn controller_reads_pending_events() {
    let mut storage = [0, 0, 0, 0b0010, 0];
    let block = GpuRegisterBlock::from_slice(&mut storage).unwrap();
    let controller = InterruptController::new();
    let pending = controller.pending(&block).unwrap();
    assert!(pending.has(InterruptEvents::queue_fault()));
}

#[test]
fn controller_acknowledges_events() {
    let mut storage = [0_u32; 5];
    {
        let mut block = GpuRegisterBlock::from_slice(&mut storage).unwrap();
        let controller = InterruptController::new();
        controller.ack(&mut block, InterruptEvents::firmware_fault()).unwrap();
    }
    assert_eq!(storage[4], 0b1000);
}

#[test]
fn empty_interrupt_event_set_is_detected() {
    assert!(InterruptEvents::none().is_empty());
    assert!(!InterruptEvents::command_complete().is_empty());
}

#[test]
fn bitor_assign_accumulates_events() {
    let mut events = InterruptEvents::none();
    events |= InterruptEvents::firmware_fault();
    events |= InterruptEvents::command_complete();
    assert_eq!(events.bits(), 0b1001);
    assert!(events.contains(InterruptEvents::none()));
}

#[test]
fn interrupt_registers_missing_from_small_block() {
    let mut storage = [0_u32; 3];
    let mut block = GpuRegisterBlock::from_slice(&mut storage).unwrap();
    assert_eq!(
        block.read_interrupt_status(),
        Err(RegisterBlockError::Mmio(MmioError::OutOfBounds { index: 3, register_count: 3 }))
    );
    let controller = InterruptController::default();
    assert_eq!(
        controller.ack(&mut block, InterruptEvents::queue_fault()),
        Err(InterruptError::Register(RegisterBlockError::Mmio(MmioError::OutOfBounds {
            index: 4,
            register_count: 3
        })))
    );
}
