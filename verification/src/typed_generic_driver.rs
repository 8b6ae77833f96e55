use crate::command::RawCommand;
use crate::device_state::{firmware_error, firmware_info, DeviceState};
use crate::generic_driver::{
    generic_submit_outcome, GenericDriverError, GenericDriverView, GenericGpuDriver,
};
use crate::queue_backend::SubmissionQueue;
use crate::submission::{SubmissionRequest, ValidatedSubmission};
use crate::submission_session::SubmissionSession;
use crate::typed_driver::{DriverState, FirmwareLoaded, Offline, Operational, Ready};
use crate::{allocate_error, allocated, write_error, BufferId, DeviceView};
use std::marker::PhantomData;
use vstd::prelude::*;

verus! {

/// GPU driver whose lifecycle state and queue backend are both
/// represented in its type.
///
/// Offline drivers do not expose operational methods.
#[derive(Debug)]
pub struct TypedGenericGpuDriver<S, Q> where S: DriverState, Q: SubmissionQueue {
    inner: GenericGpuDriver<Q>,
    marker: PhantomData<S>,
}

/// Failed lifecycle transition preserving both the driver and its
/// concrete queue backend.
#[derive(Debug)]
pub struct GenericTransitionError<S, Q> where S: DriverState, Q: SubmissionQueue {
    driver: Box<TypedGenericGpuDriver<S, Q>>,
    error: GenericDriverError<Q::Error>,
}

impl<S, Q> GenericTransitionError<S, Q> where S: DriverState, Q: SubmissionQueue {
    pub closed spec fn spec_error(&self) -> GenericDriverError<Q::Error> {
        self.error
    }

    pub closed spec fn spec_driver(&self) -> TypedGenericGpuDriver<S, Q> {
        *self.driver
    }

    pub fn error(&self) -> (r: &GenericDriverError<Q::Error>)
        ensures
            *r == self.spec_error(),
    {
        &self.error
    }

    pub fn into_driver(self) -> (r: TypedGenericGpuDriver<S, Q>)
        ensures
            r == self.spec_driver(),
    {
        *self.driver
    }

    pub fn into_parts(self) -> (r: (TypedGenericGpuDriver<S, Q>, GenericDriverError<Q::Error>))
        ensures
            r.0 == self.spec_driver(),
            r.1 == self.spec_error(),
    {
        (*self.driver, self.error)
    }
}

impl<S, Q> View for TypedGenericGpuDriver<S, Q> where S: DriverState, Q: SubmissionQueue {
    type V = GenericDriverView;

    closed spec fn view(&self) -> GenericDriverView {
        self.inner@
    }
}

impl<S, Q> TypedGenericGpuDriver<S, Q> where S: DriverState, Q: SubmissionQueue {
    /// The inner driver is well formed and its runtime state is the one the
    /// marker `S` stands for.
    pub closed spec fn wf(&self) -> bool {
        &&& self.inner.wf()
        &&& self.inner@.state.spec_kind() == S::runtime_kind()
    }

    /// The compile-time marker always names the runtime state.
    pub proof fn lemma_marker_matches_runtime(&self)
        requires
            self.wf(),
        ensures
            self@.state.spec_kind() == S::runtime_kind(),
    {
    }

    /// The name of the compile-time state.
    pub fn state_name(&self) -> (r: &'static str)
        ensures
            r@ == S::name_spec(),
    {
        S::name()
    }

    /// Inspect the runtime state for diagnostics.
    pub fn runtime_state(&self) -> (r: &DeviceState)
        ensures
            *r == self@.state,
    {
        self.inner.state()
    }

    fn change_state<T>(self) -> (r: TypedGenericGpuDriver<T, Q>) where T: DriverState
        requires
            self.inner.wf(),
            self@.state.spec_kind() == T::runtime_kind(),
        ensures
            r.wf(),
            r@ == self@,
    {
        TypedGenericGpuDriver { inner: self.inner, marker: PhantomData }
    }
}

impl<Q> TypedGenericGpuDriver<Offline, Q> where Q: SubmissionQueue {
    pub fn new(queue: Q) -> (r: Self)
        requires
            queue.queue_inv(),
        ensures
            r.wf(),
            r@.state == DeviceState::Offline,
            r@.device.buffers.is_empty(),
            r@.device.next_id == 0,
            r@.queue == queue.queued(),
            r@.capacity == queue.queue_capacity(),
    {
        Self { inner: GenericGpuDriver::new(queue), marker: PhantomData }
    }

    /// Consume an offline driver and return a firmware-loaded driver.
    ///
    /// On failure, return the unchanged offline driver with the error.
    pub fn load_firmware(self, image: &[u8]) -> (r: Result<
        TypedGenericGpuDriver<FirmwareLoaded, Q>,
        GenericTransitionError<Offline, Q>,
    >)
        requires
            self.wf(),
        ensures
            match firmware_error(image@) {
                Some(e) => r matches Err(t) && t.spec_error() == GenericDriverError::<
                    Q::Error,
                >::State(e) && t.spec_driver().wf() && t.spec_driver()@ == self@,
                None => r matches Ok(d) && d.wf() && d@ == (GenericDriverView {
                    state: DeviceState::FirmwareLoaded(firmware_info(image@)),
                    ..self@
                }),
            },
    {
        let mut this = self;
        match this.inner.load_firmware(image) {
            Ok(()) => Ok(this.change_state()),
            Err(error) => Err(GenericTransitionError { driver: Box::new(this), error }),
        }
    }
}

impl<Q> TypedGenericGpuDriver<FirmwareLoaded, Q> where Q: SubmissionQueue {
    /// Consume a firmware-loaded driver and return a ready driver.
    ///
    /// A firmware-loaded driver always starts; the firmware information is
    /// carried over.
    pub fn start(self) -> (r: Result<
        TypedGenericGpuDriver<Ready, Q>,
        GenericTransitionError<FirmwareLoaded, Q>,
    >)
        requires
            self.wf(),
        ensures
            self@.state matches DeviceState::FirmwareLoaded(info) && r matches Ok(d) && d.wf()
                && d@ == (GenericDriverView { state: DeviceState::Ready(info), ..self@ }),
    {
        let mut this = self;
        match this.inner.start() {
            Ok(()) => Ok(this.change_state()),
            Err(error) => Err(GenericTransitionError { driver: Box::new(this), error }),
        }
    }
}

impl<T, Q> TypedGenericGpuDriver<T, Q> where T: Operational, Q: SubmissionQueue {
    pub fn allocate_buffer(&mut self, capacity: usize) -> (r: Result<
        BufferId,
        GenericDriverError<Q::Error>,
    >)
        requires
            old(self).wf(),
        ensures
            final(self).wf(),
            match allocate_error(old(self)@.device, capacity) {
                Some(e) => r == Err::<BufferId, GenericDriverError<Q::Error>>(
                    GenericDriverError::Buffer(e),
                ) && final(self)@ == old(self)@,
                None => r matches Ok(id) && allocated(old(self)@.device, capacity, id, final(self)@.device)
                    && final(self)@ == (GenericDriverView { device: final(self)@.device, ..old(self)@ }),
            },
    {
        proof {
            T::lemma_operational_is_ready();
        }
        self.inner.allocate_buffer(capacity)
    }

    pub fn write_buffer(&mut self, id: BufferId, data: &[u8]) -> (r: Result<
        (),
        GenericDriverError<Q::Error>,
    >)
        requires
            old(self).wf(),
        ensures
            final(self).wf(),
            match write_error(old(self)@.device, id, data@.len() as usize) {
                Some(e) => r == Err::<(), GenericDriverError<Q::Error>>(
                    GenericDriverError::Buffer(e),
                ) && final(self)@ == old(self)@,
                None => r is Ok && final(self)@ == (GenericDriverView {
                    device: DeviceView {
                        buffers: old(self)@.device.buffers.insert(
                            id,
                            old(self)@.device.buffers[id].replaced_with(data@),
                        ),
                        ..old(self)@.device
                    },
                    ..old(self)@
                }),
            },
    {
        proof {
            T::lemma_operational_is_ready();
        }
        self.inner.write_buffer(id, data)
    }

    pub fn submit(&mut self, buffer_id: BufferId, command: RawCommand) -> (r: Result<
        (),
        GenericDriverError<Q::Error>,
    >)
        requires
            old(self).wf(),
        ensures
            final(self).wf(),
            generic_submit_outcome::<Q>(
                old(self)@,
                SubmissionRequest { buffer_id, command },
                r,
                final(self)@,
            ),
    {
        proof {
            T::lemma_operational_is_ready();
        }
        self.inner.submit(buffer_id, command)
    }

    pub fn next_submission(&mut self) -> (r: Option<ValidatedSubmission>)
        requires
            old(self).wf(),
        ensures
            final(self).wf(),
            old(self)@.queue.len() == 0 ==> r is None && final(self)@ == old(self)@,
            old(self)@.queue.len() > 0 ==> r == Some(old(self)@.queue[0]) && final(self)@ == (
            GenericDriverView { queue: old(self)@.queue.drop_first(), ..old(self)@ }),
    {
        self.inner.next_submission()
    }

    pub fn peek_submission(&self) -> (r: Option<&ValidatedSubmission>)
        requires
            self.wf(),
        ensures
            self@.queue.len() == 0 ==> r is None,
            self@.queue.len() > 0 ==> (r matches Some(s) && *s == self@.queue[0]),
    {
        self.inner.peek_submission()
    }

    pub fn queued_len(&self) -> (r: usize)
        requires
            self.wf(),
        ensures
            r == self@.queue.len(),
    {
        self.inner.queued_len()
    }

    pub fn is_queue_empty(&self) -> (r: bool)
        requires
            self.wf(),
        ensures
            r == (self@.queue.len() == 0),
    {
        self.inner.is_queue_empty()
    }

    pub fn is_queue_full(&self) -> (r: bool)
        requires
            self.wf(),
        ensures
            r == (self@.queue.len() == self@.capacity),
    {
        self.inner.is_queue_full()
    }

    /// Exclusive, lifetime-bound access to the submission API; the driver
    /// cannot be used directly while the session lives.
    pub fn begin_submission_session(&mut self) -> (r: SubmissionSession<'_, T, Q>)
        requires
            old(self).wf(),
        ensures
            r.wf(),
            r.driver_view() == old(self)@,
    {
        SubmissionSession::new(self)
    }
}

} // verus!
