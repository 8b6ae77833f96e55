use crate::command::RawCommand;
use crate::device_state::{firmware_error, firmware_info, DeviceController, DeviceState, StateError};
use crate::driver::{appended_request, not_ready_error};
use crate::queue_backend::SubmissionQueue;
use crate::submission::{
    submission_error, validate_submission, SubmissionError, SubmissionRequest, ValidatedSubmission,
};
use crate::{allocate_error, allocated, write_error, BufferId, DeviceView, DriverError, GpuDevice};
use vstd::prelude::*;
use vstd::std_specs::convert::FromSpecImpl;

verus! {

#[derive(Debug, PartialEq, Eq)]
pub enum GenericDriverError<QE> {
    State(StateError),
    Buffer(DriverError),
    Submission(SubmissionError),
    Queue(QE),
}

impl<QE> From<StateError> for GenericDriverError<QE> {
    fn from(error: StateError) -> (r: Self)
        ensures
            r == GenericDriverError::<QE>::State(error),
    {
        Self::State(error)
    }
}

impl<QE> FromSpecImpl<StateError> for GenericDriverError<QE> {
    open spec fn obeys_from_spec() -> bool {
        true
    }

    open spec fn from_spec(v: StateError) -> Self {
        GenericDriverError::State(v)
    }
}

impl<QE> From<DriverError> for GenericDriverError<QE> {
    fn from(error: DriverError) -> (r: Self)
        ensures
            r == GenericDriverError::<QE>::Buffer(error),
    {
        Self::Buffer(error)
    }
}

impl<QE> FromSpecImpl<DriverError> for GenericDriverError<QE> {
    open spec fn obeys_from_spec() -> bool {
        true
    }

    open spec fn from_spec(v: DriverError) -> Self {
        GenericDriverError::Buffer(v)
    }
}

impl<QE> From<SubmissionError> for GenericDriverError<QE> {
    fn from(error: SubmissionError) -> (r: Self)
        ensures
            r == GenericDriverError::<QE>::Submission(error),
    {
        Self::Submission(error)
    }
}

impl<QE> FromSpecImpl<SubmissionError> for GenericDriverError<QE> {
    open spec fn obeys_from_spec() -> bool {
        true
    }

    open spec fn from_spec(v: SubmissionError) -> Self {
        GenericDriverError::Submission(v)
    }
}

/// The abstract state of a generic driver: device lifecycle, buffers and
/// the pending submissions of its queue backend.
#[verifier::ext_equal]
pub struct GenericDriverView {
    pub state: DeviceState,
    pub device: DeviceView,
    pub queue: Seq<ValidatedSubmission>,
    pub capacity: nat,
}

/// What `submit(request)` does to a generic driver with queue backend `Q`
/// in state `old`: `r` is its result and `new` the state afterwards. A
/// validated submission is handed to the backend, whose decision is passed
/// on; a rejection leaves everything unchanged.
pub open spec fn generic_submit_outcome<Q: SubmissionQueue>(
    old: GenericDriverView,
    request: SubmissionRequest,
    r: Result<(), GenericDriverError<Q::Error>>,
    new: GenericDriverView,
) -> bool {
    let lookup = if old.device.buffers.contains_key(request.buffer_id) {
        Ok(old.device.buffers[request.buffer_id].used as usize)
    } else {
        Err(DriverError::UnknownBuffer(request.buffer_id))
    };
    if !(old.state is Ready) {
        r == Err::<(), GenericDriverError<Q::Error>>(
            GenericDriverError::State(not_ready_error(old.state)),
        ) && new == old
    } else if submission_error(request, lookup) is Some {
        r == Err::<(), GenericDriverError<Q::Error>>(
            GenericDriverError::Submission(submission_error(request, lookup)->0),
        ) && new == old
    } else {
        let validated = ValidatedSubmission::spec_from_request(request);
        validated.matches_request(request) && match Q::enqueue_decision(old.queue, old.capacity, validated) {
            Ok(()) => r is Ok && old.queue.len() < old.capacity && appended_request(
                old.queue,
                new.queue,
                request,
            ) && new == GenericDriverView { queue: old.queue.push(validated), ..old },
            Err(qe) => r == Err::<(), GenericDriverError<Q::Error>>(GenericDriverError::Queue(qe))
                && new == old,
        }
    }
}

/// A GPU driver whose queue backend is chosen by the caller.
#[derive(Debug)]
pub struct GenericGpuDriver<Q> where Q: SubmissionQueue {
    controller: DeviceController,
    device: GpuDevice,
    queue: Q,
}

impl<Q> View for GenericGpuDriver<Q> where Q: SubmissionQueue {
    type V = GenericDriverView;

    closed spec fn view(&self) -> GenericDriverView {
        GenericDriverView {
            state: self.controller@,
            device: self.device@,
            queue: self.queue.queued(),
            capacity: self.queue.queue_capacity(),
        }
    }
}

impl<Q> GenericGpuDriver<Q> where Q: SubmissionQueue {
    pub closed spec fn wf(&self) -> bool {
        &&& self.device.wf()
        &&& self.queue.queue_inv()
    }

    pub fn new(queue: Q) -> (r: Self)
        requires
            queue.queue_inv(),
        ensures
            r.wf(),
            r@.state == DeviceState::Offline,
            r@.device.buffers.is_empty(),
            r@.device.next_id == 0,
            r@.queue == queue.queued(),
            r@.capacity == queue.queue_capacity(),
    {
        Self { controller: DeviceController::default(), device: GpuDevice::default(), queue }
    }

    pub fn state(&self) -> (r: &DeviceState)
        ensures
            *r == self@.state,
    {
        self.controller.state()
    }

    pub fn load_firmware(&mut self, image: &[u8]) -> (r: Result<(), GenericDriverError<Q::Error>>)
        requires
            old(self).wf(),
        ensures
            final(self).wf(),
            old(self)@.state is Offline ==> match firmware_error(image@) {
                Some(e) => r == Err::<(), GenericDriverError<Q::Error>>(
                    GenericDriverError::State(e),
                ) && final(self)@ == old(self)@,
                None => r is Ok && final(self)@ == (GenericDriverView {
                    state: DeviceState::FirmwareLoaded(firmware_info(image@)),
                    ..old(self)@
                }),
            },
            !(old(self)@.state is Offline) ==> r == Err::<(), GenericDriverError<Q::Error>>(
                GenericDriverError::State(
                    StateError::InvalidState {
                        operation: "load_firmware",
                        actual: old(self)@.state.kind(),
                    },
                ),
            ) && final(self)@ == old(self)@,
    {
        match self.controller.load_firmware(image) {
            Ok(()) => Ok(()),
            Err(e) => Err(GenericDriverError::State(e)),
        }
    }

    pub fn start(&mut self) -> (r: Result<(), GenericDriverError<Q::Error>>)
        requires
            old(self).wf(),
        ensures
            final(self).wf(),
            old(self)@.state matches DeviceState::FirmwareLoaded(info) ==> r is Ok && final(self)@
                == (GenericDriverView { state: DeviceState::Ready(info), ..old(self)@ }),
            !(old(self)@.state is FirmwareLoaded) ==> r == Err::<
                (),
                GenericDriverError<Q::Error>,
            >(
                GenericDriverError::State(
                    StateError::InvalidState { operation: "start", actual: old(self)@.state.kind() },
                ),
            ) && final(self)@ == old(self)@,
    {
        match self.controller.start() {
            Ok(()) => Ok(()),
            Err(e) => Err(GenericDriverError::State(e)),
        }
    }

    /// Allocate a buffer only while the device is ready.
    pub fn allocate_buffer(&mut self, capacity: usize) -> (r: Result<
        BufferId,
        GenericDriverError<Q::Error>,
    >)
        requires
            old(self).wf(),
        ensures
            final(self).wf(),
            !(old(self)@.state is Ready) ==> r == Err::<BufferId, GenericDriverError<Q::Error>>(
                GenericDriverError::State(not_ready_error(old(self)@.state)),
            ) && final(self)@ == old(self)@,
            old(self)@.state is Ready ==> match allocate_error(old(self)@.device, capacity) {
                Some(e) => r == Err::<BufferId, GenericDriverError<Q::Error>>(
                    GenericDriverError::Buffer(e),
                ) && final(self)@ == old(self)@,
                None => r matches Ok(id) && allocated(old(self)@.device, capacity, id, final(self)@.device)
                    && final(self)@ == (GenericDriverView { device: final(self)@.device, ..old(self)@ }),
            },
    {
        match self.controller.ensure_ready() {
            Ok(_) => {},
            Err(e) => return Err(GenericDriverError::State(e)),
        }
        match self.device.allocate_buffer(capacity) {
            Ok(id) => Ok(id),
            Err(e) => Err(GenericDriverError::Buffer(e)),
        }
    }

    /// Replace the contents of a buffer, only while the device is ready.
    pub fn write_buffer(&mut self, id: BufferId, data: &[u8]) -> (r: Result<
        (),
        GenericDriverError<Q::Error>,
    >)
        requires
            old(self).wf(),
        ensures
            final(self).wf(),
            !(old(self)@.state is Ready) ==> r == Err::<(), GenericDriverError<Q::Error>>(
                GenericDriverError::State(not_ready_error(old(self)@.state)),
            ) && final(self)@ == old(self)@,
            old(self)@.state is Ready ==> match write_error(
                old(self)@.device,
                id,
                data@.len() as usize,
            ) {
                Some(e) => r == Err::<(), GenericDriverError<Q::Error>>(
                    GenericDriverError::Buffer(e),
                ) && final(self)@ == old(self)@,
                None => r is Ok && final(self)@ == (GenericDriverView {
                    device: DeviceView {
                        buffers: old(self)@.device.buffers.insert(
                            id,
                            old(self)@.device.buffers[id].replaced_with(data@),
                        ),
                        ..old(self)@.device
                    },
                    ..old(self)@
                }),
            },
    {
        match self.controller.ensure_ready() {
            Ok(_) => {},
            Err(e) => return Err(GenericDriverError::State(e)),
        }
        match self.device.write_buffer(id, data) {
            Ok(()) => Ok(()),
            Err(e) => Err(GenericDriverError::Buffer(e)),
        }
    }

    /// Validate an untrusted command request and hand it to the queue backend.
    pub fn submit(&mut self, buffer_id: BufferId, command: RawCommand) -> (r: Result<
        (),
        GenericDriverError<Q::Error>,
    >)
        requires
            old(self).wf(),
        ensures
            final(self).wf(),
            generic_submit_outcome::<Q>(
                old(self)@,
                SubmissionRequest { buffer_id, command },
                r,
                final(self)@,
            ),
    {
        match self.controller.ensure_ready() {
            Ok(_) => {},
            Err(e) => return Err(GenericDriverError::State(e)),
        }
        let request = SubmissionRequest { buffer_id, command };
        let submission = match validate_submission(&self.device, request) {
            Ok(s) => s,
            Err(e) => return Err(GenericDriverError::Submission(e)),
        };
        let ghost old_queue = self.queue.queued();
        match self.queue.enqueue(submission) {
            Ok(()) => {
                proof {
                    assert(self.queue.queued().drop_last() =~= old_queue);
                }
                Ok(())
            },
            Err(e) => Err(GenericDriverError::Queue(e)),
        }
    }

    /// Transfer ownership of the oldest submission to the caller.
    pub fn next_submission(&mut self) -> (r: Option<ValidatedSubmission>)
        requires
            old(self).wf(),
        ensures
            final(self).wf(),
            old(self)@.queue.len() == 0 ==> r is None && final(self)@ == old(self)@,
            old(self)@.queue.len() > 0 ==> r == Some(old(self)@.queue[0]) && final(self)@ == (
            GenericDriverView { queue: old(self)@.queue.drop_first(), ..old(self)@ }),
    {
        self.queue.dequeue()
    }

    /// Borrow the oldest submission.
    pub fn peek_submission(&self) -> (r: Option<&ValidatedSubmission>)
        requires
            self.wf(),
        ensures
            self@.queue.len() == 0 ==> r is None,
            self@.queue.len() > 0 ==> (r matches Some(s) && *s == self@.queue[0]),
    {
        self.queue.peek()
    }

    pub fn queued_len(&self) -> (r: usize)
        requires
            self.wf(),
        ensures
            r == self@.queue.len(),
    {
        self.queue.len()
    }

    pub fn is_queue_empty(&self) -> (r: bool)
        requires
            self.wf(),
        ensures
            r == (self@.queue.len() == 0),
    {
        self.queue.is_empty()
    }

    pub fn is_queue_full(&self) -> (r: bool)
        requires
            self.wf(),
        ensures
            r == (self@.queue.len() == self@.capacity),
    {
        self.queue.is_full()
    }
}

} // verus!
