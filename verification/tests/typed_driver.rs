use rust_gpu_driver_lab::command::{CommandError, RawCommand};
use rust_gpu_driver_lab::device_state::{DeviceState, FirmwareInfo, StateError};
use rust_gpu_driver_lab::driver::DriverApiError;
use rust_gpu_driver_lab::queue::QueueError;
use rust_gpu_driver_lab::submission::SubmissionError;
use rust_gpu_driver_lab::typed_driver::{Offline, Operational, Ready, TypedDriver};

fn firmware() -> [u8; 6] {
    *b"RGPU\x01\x09"
}

fn valid_command(id: u64) -> RawCommand {
    RawCommand { id, offset: 0, length: 4, priority: 1 }
}

fn ready_driver(queue_capacity: usize) -> TypedDriver<Ready> {
    TypedDriver::<Offline>::new(queue_capacity)
        .unwrap()
        .load_firmware(&firmware())
        .unwrap()
        .start()
        .unwrap()
}

fn operational_queue_length<S>(driver: &TypedDriver<S>) -> usize
where
    S: Operational,
{
    driver.queued_len()
}

#[test]
fn new_typed_driver_is_offline() {
    let driver = TypedDriver::<Offline>::new(2).unwrap();
    assert_eq!(driver.runtime_state(), &DeviceState::Offline);
}

#[test]
fn zero_queue_capacity_error_is_preserved() {
    assert!(matches!(TypedDriver::<Offline>::new(0), Err(DriverApiError::Queue(QueueError::ZeroCapacity))));
}

#[test]
fn successful_transitions_change_runtime_state() {
    let offline = TypedDriver::<Offline>::new(2).unwrap();
    let loaded = offline.load_firmware(&firmware()).unwrap();
    assert_eq!(loaded.runtime_state(), &DeviceState::FirmwareLoaded(FirmwareInfo { major: 1, minor: 9 }));
    let ready = loaded.start().unwrap();
    assert_eq!(ready.runtime_state(), &DeviceState::Ready(FirmwareInfo { major: 1, minor: 9 }));
}

#[test]
fn failed_firmware_transition_returns_offline_driver() {
    let offline = TypedDriver::<Offline>::new(2).unwrap();
    let transition_error = offline.load_firmware(b"bad").unwrap_err();
    assert_eq!(transition_error.error(), &DriverApiError::State(StateError::FirmwareTooShort { actual: 3 }));
    let offline = transition_error.into_driver();
    assert_eq!(offline.runtime_state(), &DeviceState::Offline);
    let loaded = offline.load_firmware(&firmware()).unwrap();
    assert!(matches!(loaded.runtime_state(), DeviceState::FirmwareLoaded(_)));
}

#[test]
fn ready_driver_processes_submission() {
    let mut driver = ready_driver(2);
    let buffer_id = driver.allocate_buffer(8).unwrap();
    driver.write_buffer(buffer_id, &[1, 2, 3, 4]).unwrap();
    driver.submit(buffer_id, valid_command(10)).unwrap();
    assert_eq!(driver.queued_len(), 1);
    let submission = driver.next_submission().unwrap();
    assert_eq!(submission.command().id().get(), 10);
    assert_eq!(driver.queued_len(), 0);
}

#[test]
fn invalid_command_does_not_modify_ready_driver_queue() {
    let mut driver = ready_driver(2);
    let buffer_id = driver.allocate_buffer(8).unwrap();
    driver.write_buffer(buffer_id, &[0; 8]).unwrap();
    let result = driver.submit(buffer_id, RawCommand { id: 0, offset: 0, length: 4, priority: 1 });
    assert_eq!(result, Err(DriverApiError::Submission(SubmissionError::Command(CommandError::ZeroCommandId))));
    assert_eq!(driver.queued_len(), 0);
}

#[test]
fn queue_full_error_preserves_existing_submission() {
    let mut driver = ready_driver(1);
    let buffer_id = driver.allocate_buffer(8).unwrap();
    driver.write_buffer(buffer_id, &[0; 8]).unwrap();
    driver.submit(buffer_id, valid_command(1)).unwrap();
    assert_eq!(
        driver.submit(buffer_id, valid_command(2)),
        Err(DriverApiError::Queue(QueueError::QueueFull { capacity: 1 }))
    );
    assert_eq!(driver.queued_len(), 1);
    assert_eq!(driver.next_submission().unwrap().command().id().get(), 1);
}

#[test]
fn state_names_follow_compile_time_markers() {
    let offline = TypedDriver::<Offline>::new(2).unwrap();
    assert_eq!(offline.state_name(), "offline");
    let loaded = offline.load_firmware(&firmware()).unwrap();
    assert_eq!(loaded.state_name(), "firmware-loaded");
    let ready = loaded.start().unwrap();
    assert_eq!(ready.state_name(), "ready");
}

#[test]
fn ready_driver_satisfies_operational_capability() {
    let driver = ready_driver(2);
    assert_eq!(operational_queue_length(&driver), 0);
}

#[test]
fn operational_capability_allows_buffer_work() {
    let mut driver = ready_driver(2);
    let buffer_id = driver.allocate_buffer(8).unwrap();
    driver.write_buffer(buffer_id, &[1, 2, 3, 4]).unwrap();
    driver.submit(buffer_id, valid_command(44)).unwrap();
    assert_eq!(driver.queued_len(), 1);
}

#[test]
fn recovered_driver_keeps_offline_marker() {
    let offline = TypedDriver::<Offline>::new(2).unwrap();
    let failure = offline.load_firmware(b"bad").unwrap_err();
    let recovered = failure.into_driver();
    assert_eq!(recovered.state_name(), "offline");
    assert_eq!(recovered.runtime_state(), &DeviceState::Offline);
}

#[test]
fn transition_error_parts_are_returned() {
    let offline = TypedDriver::<Offline>::new(2).unwrap();
    let failure = offline.load_firmware(b"RGPU\x03\x00").unwrap_err();
    let (driver, error) = failure.into_parts();
    assert_eq!(error, DriverApiError::State(StateError::UnsupportedFirmwareMajor { found: 3 }));
    assert_eq!(driver.runtime_state(), &DeviceState::Offline);
    assert!(!ready_driver(1).is_queue_full());
}
