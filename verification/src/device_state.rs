use vstd::prelude::*;

verus! {

#[derive(Debug, Clone, PartialEq, Eq)]
pub struct FirmwareInfo {
    pub major: u8,
    pub minor: u8,
}

#[derive(Debug, Clone, Copy, PartialEq, Eq)]
pub enum StateKind {
    Offline,
    FirmwareLoaded,
    Ready,
    Faulted,
}

#[derive(Debug, PartialEq, Eq)]
pub enum DeviceState {
    Offline,
    FirmwareLoaded(FirmwareInfo),
    Ready(FirmwareInfo),
    Faulted,
}

impl DeviceState {
    pub open spec fn spec_kind(&self) -> StateKind {
        match self {
            DeviceState::Offline => StateKind::Offline,
            DeviceState::FirmwareLoaded(_) => StateKind::FirmwareLoaded,
            DeviceState::Ready(_) => StateKind::Ready,
            DeviceState::Faulted => StateKind::Faulted,
        }
    }

    #[verifier::when_used_as_spec(spec_kind)]
    pub fn kind(&self) -> (r: StateKind)
        ensures
            r == self.spec_kind(),
    {
        match self {
            DeviceState::Offline => StateKind::Offline,
            DeviceState::FirmwareLoaded(_) => StateKind::FirmwareLoaded,
            DeviceState::Ready(_) => StateKind::Ready,
            DeviceState::Faulted => StateKind::Faulted,
        }
    }
}

#[allow(inconsistent_fields)]
#[derive(Debug, PartialEq, Eq)]
pub enum StateError {
    InvalidState { operation: &'static str, actual: StateKind },
    FirmwareTooShort { actual: usize },
    InvalidFirmwareMagic,
    UnsupportedFirmwareMajor { found: u8 },
}

/// The bytes `b"RGPU"` that open every firmware image.
pub open spec fn firmware_magic() -> Seq<u8> {
    seq![0x52u8, 0x47u8, 0x50u8, 0x55u8]
}

/// The only supported firmware major version.
pub const SUPPORTED_FIRMWARE_MAJOR: u8 = 1u8;

/// The error that checking `image` reports, or `None` for a valid image.
///
/// Expected image format: bytes 0..4 are `b"RGPU"`, byte 4 is the major
/// version (only 1 is supported), byte 5 is the minor version; any further
/// bytes are payload.
pub open spec fn firmware_error(image: Seq<u8>) -> Option<StateError> {
    if image.len() < 6 {
        Some(StateError::FirmwareTooShort { actual: image.len() as usize })
    } else if image.subrange(0, 4) != firmware_magic() {
        Some(StateError::InvalidFirmwareMagic)
    } else if image[4] != SUPPORTED_FIRMWARE_MAJOR {
        Some(StateError::UnsupportedFirmwareMajor { found: image[4] })
    } else {
        None
    }
}

/// A firmware image is accepted exactly when it has at least six bytes, starts
/// with `RGPU` and has major version 1 in byte 4; an image with that magic
/// and any other major byte is refused as unsupported, naming that byte.
pub proof fn lemma_firmware_major(image: Seq<u8>)
    ensures
        firmware_error(image) is None <==> image.len() >= 6 && image[0] == 0x52u8 && image[1]
            == 0x47u8 && image[2] == 0x50u8 && image[3] == 0x55u8 && image[4] == 1u8,
        image.len() >= 6 && image[0] == 0x52u8 && image[1] == 0x47u8 && image[2] == 0x50u8
            && image[3] == 0x55u8 && image[4] != 1u8 ==> firmware_error(image) == Some(
            StateError::UnsupportedFirmwareMajor { found: image[4] },
        ),
{
    if image.len() >= 6 {
        if image.subrange(0, 4) == firmware_magic() {
            assert(image.subrange(0, 4)[0] == image[0]);
            assert(image.subrange(0, 4)[1] == image[1]);
            assert(image.subrange(0, 4)[2] == image[2]);
            assert(image.subrange(0, 4)[3] == image[3]);
        }
        if image[0] == 0x52u8 && image[1] == 0x47u8 && image[2] == 0x50u8 && image[3] == 0x55u8 {
            assert(image.subrange(0, 4) =~= firmware_magic());
        }
    }
}

/// The firmware information a valid `image` carries.
pub open spec fn firmware_info(image: Seq<u8>) -> FirmwareInfo {
    FirmwareInfo { major: image[4], minor: image[5] }
}

/// The device lifecycle: `Offline`, then `FirmwareLoaded`, then `Ready`.
#[derive(Debug)]
pub struct DeviceController {
    state: DeviceState,
}

impl View for DeviceController {
    type V = DeviceState;

    closed spec fn view(&self) -> DeviceState {
        self.state
    }
}

impl Default for DeviceController {
    fn default() -> (r: Self)
        ensures
            r@ == DeviceState::Offline,
    {
        Self { state: DeviceState::Offline }
    }
}

impl DeviceController {
    /// Check an image's length, magic and major version.
    fn check_image(image: &[u8]) -> (r: Result<(), StateError>)
        ensures
            match firmware_error(image@) {
                Some(e) => r == Err::<(), StateError>(e),
                None => r is Ok,
            },
    {
        if image.len() < 6 {
            return Err(StateError::FirmwareTooShort { actual: image.len() });
        }
        if !(image[0] == 0x52u8 && image[1] == 0x47u8 && image[2] == 0x50u8 && image[3]
            == 0x55u8) {
            proof {
                if image@.subrange(0, 4) == firmware_magic() {
                    assert(image@.subrange(0, 4)[0] == image@[0]);
                    assert(image@.subrange(0, 4)[1] == image@[1]);
                    assert(image@.subrange(0, 4)[2] == image@[2]);
                    assert(image@.subrange(0, 4)[3] == image@[3]);
                }
            }
            return Err(StateError::InvalidFirmwareMagic);
        }
        assert(image@.subrange(0, 4) =~= firmware_magic());
        if image[4] != SUPPORTED_FIRMWARE_MAJOR {
            return Err(StateError::UnsupportedFirmwareMajor { found: image[4] });
        }
        Ok(())
    }

    /// The current device state.
    pub fn state(&self) -> (r: &DeviceState)
        ensures
            *r == self@,
    {
        &self.state
    }

    /// Validate `image` and move an offline device to `FirmwareLoaded`.
    ///
    /// Expected image format:
    ///
    /// bytes 0..4: b"RGPU"
    /// byte 4: major version
    /// byte 5: minor version
    ///
    /// Only firmware major version 1 is supported. A failed load leaves the
    /// state unchanged.
    pub fn load_firmware(&mut self, image: &[u8]) -> (r: Result<(), StateError>)
        ensures
            old(self)@ is Offline ==> match firmware_error(image@) {
                Some(e) => r == Err::<(), StateError>(e) && final(self)@ == old(self)@,
                None => r is Ok && final(self)@ == DeviceState::FirmwareLoaded(
                    firmware_info(image@),
                ),
            },
            !(old(self)@ is Offline) ==> r == Err::<(), StateError>(
                StateError::InvalidState { operation: "load_firmware", actual: old(self)@.kind() },
            ) && final(self)@ == old(self)@,
    {
        let actual = self.state.kind();
        match actual {
            StateKind::Offline => {},
            _ => {
                return Err(StateError::InvalidState { operation: "load_firmware", actual });
            },
        }
        match Self::check_image(image) {
            Ok(()) => {},
            Err(e) => return Err(e),
        }
        self.state = DeviceState::FirmwareLoaded(FirmwareInfo { major: image[4], minor: image[5] });
        Ok(())
    }

    /// Move the firmware information from `FirmwareLoaded` into `Ready`.
    ///
    /// The firmware information is moved, not cloned.
    pub fn start(&mut self) -> (r: Result<(), StateError>)
        ensures
            old(self)@ matches DeviceState::FirmwareLoaded(info) ==> r is Ok && final(self)@
                == DeviceState::Ready(info),
            !(old(self)@ is FirmwareLoaded) ==> r == Err::<(), StateError>(
                StateError::InvalidState { operation: "start", actual: old(self)@.kind() },
            ) && final(self)@ == old(self)@,
    {
        let mut prevst = DeviceState::Offline;
        std::mem::swap(&mut prevst, &mut self.state);
        match prevst {
            DeviceState::FirmwareLoaded(info) => {
                self.state = DeviceState::Ready(info);
                Ok(())
            },
            other => {
                let actual = other.kind();
                self.state = other;
                Err(StateError::InvalidState { operation: "start", actual })
            },
        }
    }

    /// Borrow the firmware information, only when the device is ready.
    pub fn ensure_ready(&self) -> (r: Result<&FirmwareInfo, StateError>)
        ensures
            self@ matches DeviceState::Ready(info) ==> (r matches Ok(i) && *i == info),
            !(self@ is Ready) ==> r == Err::<&FirmwareInfo, StateError>(
                StateError::InvalidState { operation: "ensure_ready", actual: self@.kind() },
            ),
    {
        match self.state() {
            DeviceState::Ready(info) => Ok(info),
            other => Err(StateError::InvalidState { operation: "ensure_ready", actual: other.kind() }),
        }
    }

    /// Return the device to `Offline`.
    pub fn reset(&mut self)
        ensures
            final(self)@ == DeviceState::Offline,
    {
        self.state = DeviceState::Offline;
    }
}

} // verus!
