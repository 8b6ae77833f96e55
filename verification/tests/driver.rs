use rust_gpu_driver_lab::command::{CommandError, RawCommand};
use rust_gpu_driver_lab::device_state::{DeviceState, FirmwareInfo, StateError, StateKind};
use rust_gpu_driver_lab::driver::{DriverApiError, SimulatedGpuDriver};
use rust_gpu_driver_lab::queue::QueueError;
use rust_gpu_driver_lab::submission::SubmissionError;
use rust_gpu_driver_lab::DriverError;

fn firmware() -> [u8; 6] {
    *b"RGPU\x01\x05"
}

fn valid_command(id: u64) -> RawCommand {
    RawCommand { id, offset: 0, length: 4, priority: 1 }
}

fn ready_driver(queue_capacity: usize) -> SimulatedGpuDriver {
    let mut driver = SimulatedGpuDriver::new(queue_capacity).unwrap();
    driver.load_firmware(&firmware()).unwrap();
    driver.start().unwrap();
    driver
}

#[test]
fn zero_queue_capacity_is_rejected() {
    assert!(matches!(SimulatedGpuDriver::new(0), Err(DriverApiError::Queue(QueueError::ZeroCapacity))));
}

#[test]
fn new_driver_is_offline() {
    let driver = SimulatedGpuDriver::new(2).unwrap();
    assert_eq!(driver.state(), &DeviceState::Offline);
}

#[test]
fn firmware_and_start_are_delegated() {
    let mut driver = SimulatedGpuDriver::new(2).unwrap();
    driver.load_firmware(&firmware()).unwrap();
    assert_eq!(driver.state(), &DeviceState::FirmwareLoaded(FirmwareInfo { major: 1, minor: 5 }));
    driver.start().unwrap();
    assert_eq!(driver.state(), &DeviceState::Ready(FirmwareInfo { major: 1, minor: 5 }));
}

#[test]
fn allocation_before_ready_is_rejected() {
    let mut driver = SimulatedGpuDriver::new(2).unwrap();
    assert_eq!(
        driver.allocate_buffer(16),
        Err(DriverApiError::State(StateError::InvalidState {
            operation: "ensure_ready",
            actual: StateKind::Offline,
        }))
    );
}

#[test]
fn ready_driver_processes_submission_end_to_end() {
    let mut driver = ready_driver(2);
    let buffer_id = driver.allocate_buffer(8).unwrap();
    driver.write_buffer(buffer_id, &[1, 2, 3, 4]).unwrap();
    driver.submit(buffer_id, valid_command(10)).unwrap();
    assert_eq!(driver.queued_len(), 1);
    let submission = driver.next_submission().unwrap();
    assert_eq!(submission.command().id().get(), 10);
    assert_eq!(driver.queued_len(), 0);
}

#[test]
fn invalid_command_does_not_modify_queue() {
    let mut driver = ready_driver(2);
    let buffer_id = driver.allocate_buffer(8).unwrap();
    driver.write_buffer(buffer_id, &[0; 8]).unwrap();
    let result = driver.submit(buffer_id, RawCommand { id: 0, offset: 0, length: 4, priority: 1 });
    assert_eq!(result, Err(DriverApiError::Submission(SubmissionError::Command(CommandError::ZeroCommandId))));
    assert_eq!(driver.queued_len(), 0);
}

#[test]
fn zero_initialized_buffer_rejects_submission() {
    let mut driver = ready_driver(2);
    let buffer_id = driver.allocate_buffer(8).unwrap();
    let result = driver.submit(buffer_id, valid_command(1));
    assert_eq!(
        result,
        Err(DriverApiError::Submission(SubmissionError::RangeExceedsInitialized { end: 4, initialized: 0 }))
    );
}

#[test]
fn queue_full_error_preserves_first_submission() {
    let mut driver = ready_driver(1);
    let buffer_id = driver.allocate_buffer(8).unwrap();
    driver.write_buffer(buffer_id, &[0; 8]).unwrap();
    driver.submit(buffer_id, valid_command(1)).unwrap();
    let result = driver.submit(buffer_id, valid_command(2));
    assert_eq!(result, Err(DriverApiError::Queue(QueueError::QueueFull { capacity: 1 })));
    assert_eq!(driver.queued_len(), 1);
    let first = driver.next_submission().unwrap();
    assert_eq!(first.command().id().get(), 1);
}

#[test]
fn writing_before_ready_is_rejected() {
    let mut driver = ready_driver(2);
    let buffer_id = driver.allocate_buffer(8).unwrap();
    driver.reset();
    let result = driver.write_buffer(buffer_id, &[1, 2, 3, 4]);
    assert_eq!(
        result,
        Err(DriverApiError::State(StateError::InvalidState { operation: "ensure_ready", actual: StateKind::Offline }))
    );
    assert_eq!(driver.device().initialized_len(buffer_id), Ok(0));
}

#[test]
fn submitting_before_ready_is_rejected() {
    let mut driver = SimulatedGpuDriver::new(2).unwrap();
    driver.load_firmware(&firmware()).unwrap();
    let mut other = ready_driver(1);
    let buffer_id = other.allocate_buffer(4).unwrap();
    assert_eq!(
        driver.submit(buffer_id, valid_command(3)),
        Err(DriverApiError::State(StateError::InvalidState {
            operation: "ensure_ready",
            actual: StateKind::FirmwareLoaded,
        }))
    );
    assert_eq!(driver.queued_len(), 0);
}

#[test]
fn duplicate_submission_is_rejected_by_queue() {
    let mut driver = ready_driver(3);
    let buffer_id = driver.allocate_buffer(8).unwrap();
    driver.write_buffer(buffer_id, &[0; 8]).unwrap();
    driver.submit(buffer_id, valid_command(4)).unwrap();
    assert!(matches!(
        driver.submit(buffer_id, valid_command(4)),
        Err(DriverApiError::Queue(QueueError::DuplicateCommandId(id))) if id.get() == 4
    ));
    assert_eq!(driver.queued_len(), 1);
    assert!(!driver.is_queue_full());
}

#[test]
fn buffer_errors_are_wrapped() {
    let mut driver = ready_driver(1);
    assert_eq!(driver.allocate_buffer(0), Err(DriverApiError::Buffer(DriverError::ZeroSizedAllocation)));
    let id = driver.allocate_buffer(2).unwrap();
    assert_eq!(
        driver.write_buffer(id, &[1, 2, 3]),
        Err(DriverApiError::Buffer(DriverError::WriteTooLarge { capacity: 2, requested: 3 }))
    );
}

#[test]
fn error_conversions_wrap_the_inner_error() {
    assert_eq!(
        DriverApiError::from(QueueError::ZeroCapacity),
        DriverApiError::Queue(QueueError::ZeroCapacity)
    );
    assert_eq!(
        DriverApiError::from(StateError::InvalidFirmwareMagic),
        DriverApiError::State(StateError::InvalidFirmwareMagic)
    );
}
