use rust_gpu_driver_lab::device_state::{DeviceController, DeviceState, FirmwareInfo, StateError, StateKind};

fn valid_firmware() -> [u8; 6] {
    *b"RGPU\x01\x07"
}

#[test]
fn valid_firmware_reaches_ready_state() {
    let mut controller = DeviceController::default();
    controller.load_firmware(&valid_firmware()).unwrap();
    controller.start().unwrap();
    assert_eq!(controller.state(), &DeviceState::Ready(FirmwareInfo { major: 1, minor: 7 }));
}

#[test]
fn starting_offline_device_is_rejected() {
    let mut controller = DeviceController::default();
    let result = controller.start();
    assert_eq!(
        result,
        Err(StateError::InvalidState { operation: "start", actual: StateKind::Offline })
    );
    assert_eq!(controller.state(), &DeviceState::Offline);
}

#[test]
fn invalid_magic_preserves_offline_state() {
    let mut controller = DeviceController::default();
    let image = *b"FAIL\x01\x00";
    assert_eq!(controller.load_firmware(&image), Err(StateError::InvalidFirmwareMagic));
    assert_eq!(controller.state(), &DeviceState::Offline);
}

#[test]
fn unsupported_firmware_is_rejected() {
    let mut controller = DeviceController::default();
    let image = *b"RGPU\x02\x00";
    assert_eq!(controller.load_firmware(&image), Err(StateError::UnsupportedFirmwareMajor { found: 2 }));
    assert_eq!(controller.state(), &DeviceState::Offline);
}

#[test]
fn loading_firmware_twice_is_rejected() {
    let mut controller = DeviceController::default();
    controller.load_firmware(&valid_firmware()).unwrap();
    let result = controller.load_firmware(&valid_firmware());
    assert_eq!(
        result,
        Err(StateError::InvalidState { operation: "load_firmware", actual: StateKind::FirmwareLoaded })
    );
    assert_eq!(controller.state(), &DeviceState::FirmwareLoaded(FirmwareInfo { major: 1, minor: 7 }));
}

#[test]
fn ensure_ready_returns_borrowed_firmware_information() {
    let mut controller = DeviceController::default();
    controller.load_firmware(&valid_firmware()).unwrap();
    controller.start().unwrap();
    let firmware = controller.ensure_ready().unwrap();
    assert_eq!(firmware.major, 1);
    assert_eq!(firmware.minor, 7);
}

#[test]
fn reset_returns_device_to_offline() {
    let mut controller = DeviceController::default();
    controller.load_firmware(&valid_firmware()).unwrap();
    controller.start().unwrap();
    controller.reset();
    assert_eq!(controller.state(), &DeviceState::Offline);
}

#[test]
fn ensure_ready_fails_invalid_state() {
    let mut controller = DeviceController::default();
    controller.load_firmware(&valid_firmware()).unwrap();
    let result = controller.ensure_ready();
    assert_eq!(
        result,
        Err(StateError::InvalidState { operation: "ensure_ready", actual: StateKind::FirmwareLoaded })
    );
    assert_eq!(controller.state(), &DeviceState::FirmwareLoaded(FirmwareInfo { major: 1, minor: 7 }));
}

#[test]
fn firmware_shorter_than_header_is_rejected() {
    let mut controller = DeviceController::default();
    let image = b"RGPU\x01";
    let result = controller.load_firmware(image);
    assert_eq!(result, Err(StateError::FirmwareTooShort { actual: 5 }));
    assert_eq!(controller.state(), &DeviceState::Offline);
}

#[test]
fn firmware_with_payload_is_accepted() {
    let mut controller = DeviceController::default();
    let image = b"RGPU\x01\x07payload";
    controller.load_firmware(image).unwrap();
    assert_eq!(controller.state(), &DeviceState::FirmwareLoaded(FirmwareInfo { major: 1, minor: 7 }));
}

#[test]
fn starting_twice_is_rejected_and_keeps_ready_state() {
    let mut controller = DeviceController::default();
    controller.load_firmware(&valid_firmware()).unwrap();
    controller.start().unwrap();
    assert_eq!(
        controller.start(),
        Err(StateError::InvalidState { operation: "start", actual: StateKind::Ready })
    );
    assert_eq!(controller.state(), &DeviceState::Ready(FirmwareInfo { major: 1, minor: 7 }));
}

#[test]
fn short_image_is_reported_before_bad_magic() {
    let mut controller = DeviceController::default();
    assert_eq!(controller.load_firmware(b"XX"), Err(StateError::FirmwareTooShort { actual: 2 }));
    assert_eq!(controller.load_firmware(b""), Err(StateError::FirmwareTooShort { actual: 0 }));
}

#[test]
fn state_kinds_follow_states() {
    assert_eq!(DeviceState::Offline.kind(), StateKind::Offline);
    assert_eq!(DeviceState::Faulted.kind(), StateKind::Faulted);
    assert_eq!(DeviceState::Ready(FirmwareInfo { major: 1, minor: 0 }).kind(), StateKind::Ready);
    assert_eq!(
        DeviceState::FirmwareLoaded(FirmwareInfo { major: 1, minor: 0 }).kind(),
        StateKind::FirmwareLoaded
    );
}
