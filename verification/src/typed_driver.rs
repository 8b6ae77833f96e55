use crate::command::RawCommand;
use crate::device_state::{firmware_error, firmware_info, DeviceState, StateKind};
use crate::driver::{submit_outcome, DriverApiError, DriverView, SimulatedGpuDriver};
use crate::submission::{SubmissionRequest, ValidatedSubmission};
use crate::{allocate_error, allocated, write_error, BufferId, DeviceView};
use std::marker::PhantomData;
use vstd::prelude::*;

mod sealed;

verus! {

/// Marker implemented only by valid driver lifecycle states.
///
/// External crates cannot implement this trait because it is sealed.
pub trait DriverState: sealed::Sealed + core::fmt::Debug {
    const NAME: &'static str;

    /// The runtime device state kind that accompanies this marker.
    spec fn runtime_kind() -> StateKind;

    /// The text of the state's name.
    spec fn name_spec() -> Seq<char>;

    /// The state's name: the same text as `NAME`.
    fn name() -> (r: &'static str)
        ensures
            r@ == Self::name_spec(),
    ;
}

/// Capability for states that allow normal GPU operations.
pub trait Operational: DriverState {
    proof fn lemma_operational_is_ready()
        ensures
            Self::runtime_kind() == StateKind::Ready,
    ;
}

/// Compile-time marker for an offline driver.
#[derive(Debug)]
pub struct Offline;

/// Compile-time marker for a driver with loaded firmware.
#[derive(Debug)]
pub struct FirmwareLoaded;

/// Compile-time marker for a ready driver.
#[derive(Debug)]
pub struct Ready;

impl sealed::Sealed for Offline {}

impl DriverState for Offline {
    const NAME: &'static str = "offline";

    open spec fn name_spec() -> Seq<char> {
        "offline"@
    }

    fn name() -> (r: &'static str) {
        "offline"
    }

    open spec fn runtime_kind() -> StateKind {
        StateKind::Offline
    }
}

impl sealed::Sealed for FirmwareLoaded {}

impl DriverState for FirmwareLoaded {
    const NAME: &'static str = "firmware-loaded";

    open spec fn name_spec() -> Seq<char> {
        "firmware-loaded"@
    }

    fn name() -> (r: &'static str) {
        "firmware-loaded"
    }

    open spec fn runtime_kind() -> StateKind {
        StateKind::FirmwareLoaded
    }
}

impl sealed::Sealed for Ready {}

impl DriverState for Ready {
    const NAME: &'static str = "ready";

    open spec fn name_spec() -> Seq<char> {
        "ready"@
    }

    fn name() -> (r: &'static str) {
        "ready"
    }

    open spec fn runtime_kind() -> StateKind {
        StateKind::Ready
    }
}

impl Operational for Ready {
    proof fn lemma_operational_is_ready() {
    }
}

/// Driver wrapper whose lifecycle state is represented by `S`.
///
/// Offline drivers do not expose operational methods.
#[derive(Debug)]
pub struct TypedDriver<S: DriverState> {
    inner: SimulatedGpuDriver,
    marker: PhantomData<S>,
}

/// A failed transition returns both the error and the unchanged driver.
///
/// This lets the caller inspect the error and retry without losing the
/// driver instance.
#[derive(Debug)]
pub struct TransitionError<S: DriverState> {
    driver: Box<TypedDriver<S>>,
    error: DriverApiError,
}

impl<S: DriverState> TransitionError<S> {
    pub closed spec fn spec_error(&self) -> DriverApiError {
        self.error
    }

    pub closed spec fn spec_driver(&self) -> TypedDriver<S> {
        *self.driver
    }

    pub fn error(&self) -> (r: &DriverApiError)
        ensures
            *r == self.spec_error(),
    {
        &self.error
    }

    pub fn into_driver(self) -> (r: TypedDriver<S>)
        ensures
            r == self.spec_driver(),
    {
        *self.driver
    }

    pub fn into_parts(self) -> (r: (TypedDriver<S>, DriverApiError))
        ensures
            r.0 == self.spec_driver(),
            r.1 == self.spec_error(),
    {
        (*self.driver, self.error)
    }
}

impl<S: DriverState> View for TypedDriver<S> {
    type V = DriverView;

    closed spec fn view(&self) -> DriverView {
        self.inner@
    }
}

impl<S: DriverState> TypedDriver<S> {
    /// The inner driver is well formed and its runtime state is the one the
    /// marker `S` stands for.
    pub closed spec fn wf(&self) -> bool {
        &&& self.inner.wf()
        &&& self.inner@.state.spec_kind() == S::runtime_kind()
    }

    /// The compile-time marker always names the runtime state.
    pub proof fn lemma_marker_matches_runtime(&self)
        requires
            self.wf(),
        ensures
            self@.state.spec_kind() == S::runtime_kind(),
    {
    }

    /// The name of the compile-time state.
    pub fn state_name(&self) -> (r: &'static str)
        ensures
            r@ == S::name_spec(),
    {
        S::name()
    }

    /// Inspect the runtime state for diagnostics.
    pub fn runtime_state(&self) -> (r: &DeviceState)
        ensures
            *r == self@.state,
    {
        self.inner.state()
    }

    /// Change only the compile-time marker, after the corresponding runtime
    /// transition has succeeded.
    fn change_state<T: DriverState>(self) -> (r: TypedDriver<T>)
        requires
            self.inner.wf(),
            self@.state.spec_kind() == T::runtime_kind(),
        ensures
            r.wf(),
            r@ == self@,
    {
        TypedDriver { inner: self.inner, marker: PhantomData }
    }
}

impl TypedDriver<Offline> {
    pub fn new(queue_capacity: usize) -> (r: Result<Self, DriverApiError>)
        ensures
            queue_capacity == 0 ==> r == Err::<Self, DriverApiError>(
                DriverApiError::Queue(crate::queue::QueueError::ZeroCapacity),
            ),
            queue_capacity > 0 ==> (r matches Ok(d) && d.wf() && d@.state == DeviceState::Offline
                && d@.device.buffers.is_empty() && d@.device.next_id == 0 && d@.queue.len() == 0
                && d@.capacity == queue_capacity),
    {
        match SimulatedGpuDriver::new(queue_capacity) {
            Ok(driver) => Ok(Self { inner: driver, marker: PhantomData }),
            Err(e) => Err(e),
        }
    }

    /// Consume an offline driver and return a firmware-loaded driver.
    ///
    /// On failure, return the unchanged offline driver with the error.
    pub fn load_firmware(self, image: &[u8]) -> (r: Result<
        TypedDriver<FirmwareLoaded>,
        TransitionError<Offline>,
    >)
        requires
            self.wf(),
        ensures
            match firmware_error(image@) {
                Some(e) => r matches Err(t) && t.spec_error() == DriverApiError::State(e)
                    && t.spec_driver().wf() && t.spec_driver()@ == self@,
                None => r matches Ok(d) && d.wf() && d@ == (DriverView {
                    state: DeviceState::FirmwareLoaded(firmware_info(image@)),
                    ..self@
                }),
            },
    {
        let mut this = self;
        match this.inner.load_firmware(image) {
            Ok(()) => Ok(this.change_state()),
            Err(error) => Err(TransitionError { driver: Box::new(this), error }),
        }
    }
}

impl TypedDriver<FirmwareLoaded> {
    /// Consume a firmware-loaded driver and return a ready driver.
    ///
    /// A firmware-loaded driver always starts; the firmware information is
    /// carried over.
    pub fn start(self) -> (r: Result<TypedDriver<Ready>, TransitionError<FirmwareLoaded>>)
        requires
            self.wf(),
        ensures
            self@.state matches DeviceState::FirmwareLoaded(info) && r matches Ok(d) && d.wf()
                && d@ == (DriverView { state: DeviceState::Ready(info), ..self@ }),
    {
        let mut this = self;
        match this.inner.start() {
            Ok(()) => Ok(this.change_state()),
            Err(error) => Err(TransitionError { driver: Box::new(this), error }),
        }
    }
}

impl<S> TypedDriver<S> where S: Operational {
    pub fn allocate_buffer(&mut self, capacity: usize) -> (r: Result<BufferId, DriverApiError>)
        requires
            old(self).wf(),
        ensures
            final(self).wf(),
            match allocate_error(old(self)@.device, capacity) {
                Some(e) => r == Err::<BufferId, DriverApiError>(DriverApiError::Buffer(e))
                    && final(self)@ == old(self)@,
                None => r matches Ok(id) && allocated(old(self)@.device, capacity, id, final(self)@.device)
                    && final(self)@ == (DriverView { device: final(self)@.device, ..old(self)@ }),
            },
    {
        proof {
            S::lemma_operational_is_ready();
        }
        self.inner.allocate_buffer(capacity)
    }

    pub fn write_buffer(&mut self, id: BufferId, data: &[u8]) -> (r: Result<(), DriverApiError>)
        requires
            old(self).wf(),
        ensures
            final(self).wf(),
            match write_error(old(self)@.device, id, data@.len() as usize) {
                Some(e) => r == Err::<(), DriverApiError>(DriverApiError::Buffer(e)) && final(self)@ == old(self)@,
                None => r is Ok && final(self)@ == (DriverView {
                    device: DeviceView {
                        buffers: old(self)@.device.buffers.insert(
                            id,
                            old(self)@.device.buffers[id].replaced_with(data@),
                        ),
                        ..old(self)@.device
                    },
                    ..old(self)@
                }),
            },
    {
        proof {
            S::lemma_operational_is_ready();
        }
        self.inner.write_buffer(id, data)
    }

    pub fn submit(&mut self, buffer_id: BufferId, command: RawCommand) -> (r: Result<
        (),
        DriverApiError,
    >)
        requires
            old(self).wf(),
        ensures
            final(self).wf(),
            submit_outcome(old(self)@, SubmissionRequest { buffer_id, command }, r, final(self)@),
    {
        proof {
            S::lemma_operational_is_ready();
        }
        self.inner.submit(buffer_id, command)
    }

    pub fn next_submission(&mut self) -> (r: Option<ValidatedSubmission>)
        requires
            old(self).wf(),
        ensures
            final(self).wf(),
            old(self)@.queue.len() == 0 ==> r is None && final(self)@ == old(self)@,
            old(self)@.queue.len() > 0 ==> r == Some(old(self)@.queue[0]) && final(self)@ == (
            DriverView { queue: old(self)@.queue.drop_first(), ..old(self)@ }),
    {
        self.inner.next_submission()
    }

    pub fn queued_len(&self) -> (r: usize)
        ensures
            r == self@.queue.len(),
    {
        self.inner.queued_len()
    }

    pub fn is_queue_full(&self) -> (r: bool)
        ensures
            r == (self@.queue.len() == self@.capacity),
    {
        self.inner.is_queue_full()
    }
}

} // verus!
