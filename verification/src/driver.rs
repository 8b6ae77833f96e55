use crate::command::RawCommand;
use crate::device_state::{firmware_error, firmware_info, DeviceController, DeviceState, StateError};
use crate::queue::{CommandQueue, QueueError};
use crate::submission::{
    submission_error, validate_submission, SubmissionError, SubmissionRequest, ValidatedSubmission,
};
use crate::{allocate_error, allocated, write_error, BufferId, DeviceView, DriverError, GpuDevice};
use vstd::prelude::*;
use vstd::std_specs::convert::FromSpecImpl;

verus! {

#[derive(Debug, PartialEq, Eq)]
pub enum DriverApiError {
    State(StateError),
    Buffer(DriverError),
    Submission(SubmissionError),
    Queue(QueueError),
}

impl From<StateError> for DriverApiError {
    fn from(error: StateError) -> (r: Self)
        ensures
            r == DriverApiError::State(error),
    {
        DriverApiError::State(error)
    }
}

impl FromSpecImpl<StateError> for DriverApiError {
    open spec fn obeys_from_spec() -> bool {
        true
    }

    open spec fn from_spec(v: StateError) -> Self {
        DriverApiError::State(v)
    }
}

impl From<DriverError> for DriverApiError {
    fn from(error: DriverError) -> (r: Self)
        ensures
            r == DriverApiError::Buffer(error),
    {
        DriverApiError::Buffer(error)
    }
}

impl FromSpecImpl<DriverError> for DriverApiError {
    open spec fn obeys_from_spec() -> bool {
        true
    }

    open spec fn from_spec(v: DriverError) -> Self {
        DriverApiError::Buffer(v)
    }
}

impl From<SubmissionError> for DriverApiError {
    fn from(error: SubmissionError) -> (r: Self)
        ensures
            r == DriverApiError::Submission(error),
    {
        DriverApiError::Submission(error)
    }
}

impl FromSpecImpl<SubmissionError> for DriverApiError {
    open spec fn obeys_from_spec() -> bool {
        true
    }

    open spec fn from_spec(v: SubmissionError) -> Self {
        DriverApiError::Submission(v)
    }
}

impl From<QueueError> for DriverApiError {
    fn from(error: QueueError) -> (r: Self)
        ensures
            r == DriverApiError::Queue(error),
    {
        DriverApiError::Queue(error)
    }
}

impl FromSpecImpl<QueueError> for DriverApiError {
    open spec fn obeys_from_spec() -> bool {
        true
    }

    open spec fn from_spec(v: QueueError) -> Self {
        DriverApiError::Queue(v)
    }
}

/// The abstract state of a driver: device lifecycle, buffers and queue.
#[verifier::ext_equal]
pub struct DriverView {
    pub state: DeviceState,
    pub device: DeviceView,
    pub queue: Seq<ValidatedSubmission>,
    pub capacity: usize,
}

/// The error that the readiness check reports for a device in `state`.
pub open spec fn not_ready_error(state: DeviceState) -> StateError {
    StateError::InvalidState { operation: "ensure_ready", actual: state.spec_kind() }
}

/// `new_queue` is `old_queue` with the validated form of `request` appended.
pub open spec fn appended_request(
    old_queue: Seq<ValidatedSubmission>,
    new_queue: Seq<ValidatedSubmission>,
    request: SubmissionRequest,
) -> bool {
    &&& new_queue.len() == old_queue.len() + 1
    &&& new_queue.drop_last() == old_queue
    &&& new_queue.last().matches_request(request)
}

/// The queue error enqueuing the validated form of `request` reports, or
/// `None` when there is room and no pending submission shares its identifier.
pub open spec fn request_queue_error(
    pending: Seq<ValidatedSubmission>,
    capacity: usize,
    request: SubmissionRequest,
    e: QueueError,
) -> bool {
    match e {
        QueueError::DuplicateCommandId(cid) => {
            &&& cid.get() == request.command.id
            &&& crate::queue_backend::has_command_id(pending, request.command.id)
        },
        QueueError::QueueFull { capacity: c } => {
            &&& !crate::queue_backend::has_command_id(pending, request.command.id)
            &&& pending.len() >= capacity
            &&& c == capacity
        },
        QueueError::ZeroCapacity => false,
    }
}

/// What `submit(request)` does to a driver in state `old`: `r` is its
/// result and `new` the state afterwards.
pub open spec fn submit_outcome(
    old: DriverView,
    request: SubmissionRequest,
    r: Result<(), DriverApiError>,
    new: DriverView,
) -> bool {
    let lookup = if old.device.buffers.contains_key(request.buffer_id) {
        Ok(old.device.buffers[request.buffer_id].used as usize)
    } else {
        Err(DriverError::UnknownBuffer(request.buffer_id))
    };
    if !(old.state is Ready) {
        r == Err::<(), DriverApiError>(DriverApiError::State(not_ready_error(old.state)))
            && new == old
    } else if submission_error(request, lookup) is Some {
        r == Err::<(), DriverApiError>(
            DriverApiError::Submission(submission_error(request, lookup)->0),
        ) && new == old
    } else {
        let id_taken = crate::queue_backend::has_command_id(old.queue, request.command.id);
        if id_taken || old.queue.len() >= old.capacity {
            (r matches Err(DriverApiError::Queue(e)) && request_queue_error(
                old.queue,
                old.capacity,
                request,
                e,
            )) && new == old
        } else {
            r is Ok && appended_request(old.queue, new.queue, request) && new == DriverView {
                queue: new.queue,
                ..old
            }
        }
    }
}

/// Public interface coordinating device state, buffers and submissions.
#[derive(Debug)]
pub struct SimulatedGpuDriver {
    controller: DeviceController,
    device: GpuDevice,
    queue: CommandQueue,
}

impl View for SimulatedGpuDriver {
    type V = DriverView;

    closed spec fn view(&self) -> DriverView {
        DriverView {
            state: self.controller@,
            device: self.device@,
            queue: self.queue.pending(),
            capacity: self.queue.spec_capacity(),
        }
    }
}

impl SimulatedGpuDriver {
    pub closed spec fn wf(&self) -> bool {
        &&& self.device.wf()
        &&& self.queue.wf()
    }

    pub fn new(queue_capacity: usize) -> (r: Result<Self, DriverApiError>)
        ensures
            queue_capacity == 0 ==> r == Err::<Self, DriverApiError>(
                DriverApiError::Queue(QueueError::ZeroCapacity),
            ),
            queue_capacity > 0 ==> (r matches Ok(d) && d.wf() && d@.state == DeviceState::Offline
                && d@.device.buffers.is_empty() && d@.device.next_id == 0 && d@.queue.len() == 0
                && d@.capacity == queue_capacity),
    {
        let queue = match CommandQueue::new(queue_capacity) {
            Ok(q) => q,
            Err(e) => return Err(DriverApiError::Queue(e)),
        };
        Ok(Self { controller: DeviceController::default(), device: GpuDevice::default(), queue })
    }

    pub fn state(&self) -> (r: &DeviceState)
        ensures
            *r == self@.state,
    {
        self.controller.state()
    }

    /// The device that owns the driver's buffers.
    pub fn device(&self) -> (r: &GpuDevice)
        ensures
            r@ == self@.device,
    {
        &self.device
    }

    pub fn load_firmware(&mut self, image: &[u8]) -> (r: Result<(), DriverApiError>)
        requires
            old(self).wf(),
        ensures
            final(self).wf(),
            old(self)@.state is Offline ==> match firmware_error(image@) {
                Some(e) => r == Err::<(), DriverApiError>(DriverApiError::State(e)) && final(self)@ == old(self)@,
                None => r is Ok && final(self)@ == (DriverView {
                    state: DeviceState::FirmwareLoaded(firmware_info(image@)),
                    ..old(self)@
                }),
            },
            !(old(self)@.state is Offline) ==> r == Err::<(), DriverApiError>(
                DriverApiError::State(
                    StateError::InvalidState {
                        operation: "load_firmware",
                        actual: old(self)@.state.kind(),
                    },
                ),
            ) && final(self)@ == old(self)@,
    {
        match self.controller.load_firmware(image) {
            Ok(()) => Ok(()),
            Err(e) => Err(DriverApiError::State(e)),
        }
    }

    pub fn start(&mut self) -> (r: Result<(), DriverApiError>)
        requires
            old(self).wf(),
        ensures
            final(self).wf(),
            old(self)@.state matches DeviceState::FirmwareLoaded(info) ==> r is Ok && final(self)@ == (DriverView { state: DeviceState::Ready(info), ..old(self)@ }),
            !(old(self)@.state is FirmwareLoaded) ==> r == Err::<(), DriverApiError>(
                DriverApiError::State(
                    StateError::InvalidState { operation: "start", actual: old(self)@.state.kind() },
                ),
            ) && final(self)@ == old(self)@,
    {
        match self.controller.start() {
            Ok(()) => Ok(()),
            Err(e) => Err(DriverApiError::State(e)),
        }
    }

    /// Return the device to `Offline`; buffers and queued submissions are kept.
    pub fn reset(&mut self)
        requires
            old(self).wf(),
        ensures
            final(self).wf(),
            final(self)@ == (DriverView { state: DeviceState::Offline, ..old(self)@ }),
    {
        self.controller.reset();
    }

    /// Allocate a buffer only while the device is ready.
    pub fn allocate_buffer(&mut self, capacity: usize) -> (r: Result<BufferId, DriverApiError>)
        requires
            old(self).wf(),
        ensures
            final(self).wf(),
            !(old(self)@.state is Ready) ==> r == Err::<BufferId, DriverApiError>(
                DriverApiError::State(not_ready_error(old(self)@.state)),
            ) && final(self)@ == old(self)@,
            old(self)@.state is Ready ==> match allocate_error(old(self)@.device, capacity) {
                Some(e) => r == Err::<BufferId, DriverApiError>(DriverApiError::Buffer(e))
                    && final(self)@ == old(self)@,
                None => r matches Ok(id) && allocated(old(self)@.device, capacity, id, final(self)@.device)
                    && final(self)@ == (DriverView { device: final(self)@.device, ..old(self)@ }),
            },
    {
        match self.controller.ensure_ready() {
            Ok(_) => {},
            Err(e) => return Err(DriverApiError::State(e)),
        }
        match self.device.allocate_buffer(capacity) {
            Ok(id) => Ok(id),
            Err(e) => Err(DriverApiError::Buffer(e)),
        }
    }

    /// Replace the contents of a buffer, only while the device is ready.
    pub fn write_buffer(&mut self, id: BufferId, data: &[u8]) -> (r: Result<(), DriverApiError>)
        requires
            old(self).wf(),
        ensures
            final(self).wf(),
            !(old(self)@.state is Ready) ==> r == Err::<(), DriverApiError>(
                DriverApiError::State(not_ready_error(old(self)@.state)),
            ) && final(self)@ == old(self)@,
            old(self)@.state is Ready ==> match write_error(
                old(self)@.device,
                id,
                data@.len() as usize,
            ) {
                Some(e) => r == Err::<(), DriverApiError>(DriverApiError::Buffer(e)) && final(self)@ == old(self)@,
                None => r is Ok && final(self)@ == (DriverView {
                    device: DeviceView {
                        buffers: old(self)@.device.buffers.insert(
                            id,
                            old(self)@.device.buffers[id].replaced_with(data@),
                        ),
                        ..old(self)@.device
                    },
                    ..old(self)@
                }),
            },
    {
        match self.controller.ensure_ready() {
            Ok(_) => {},
            Err(e) => return Err(DriverApiError::State(e)),
        }
        match self.device.write_buffer(id, data) {
            Ok(()) => Ok(()),
            Err(e) => Err(DriverApiError::Buffer(e)),
        }
    }

    /// Validate and enqueue an untrusted command request.
    pub fn submit(&mut self, buffer_id: BufferId, command: RawCommand) -> (r: Result<
        (),
        DriverApiError,
    >)
        requires
            old(self).wf(),
        ensures
            final(self).wf(),
            submit_outcome(old(self)@, SubmissionRequest { buffer_id, command }, r, final(self)@),
    {
        match self.controller.ensure_ready() {
            Ok(_) => {},
            Err(e) => return Err(DriverApiError::State(e)),
        }
        let request = SubmissionRequest { buffer_id, command };
        let submission = match validate_submission(&self.device, request) {
            Ok(s) => s,
            Err(e) => return Err(DriverApiError::Submission(e)),
        };
        proof {
            assert(submission.command_id() == command.id);
        }
        let ghost old_queue = self.queue.pending();
        match self.queue.enqueue(submission) {
            Ok(()) => {
                proof {
                    assert(self.queue.pending().drop_last() =~= old_queue);
                }
                Ok(())
            },
            Err(e) => Err(DriverApiError::Queue(e)),
        }
    }

    /// Transfer ownership of the oldest submission to the caller.
    pub fn next_submission(&mut self) -> (r: Option<ValidatedSubmission>)
        requires
            old(self).wf(),
        ensures
            final(self).wf(),
            old(self)@.queue.len() == 0 ==> r is None && final(self)@ == old(self)@,
            old(self)@.queue.len() > 0 ==> r == Some(old(self)@.queue[0]) && final(self)@ == (
            DriverView { queue: old(self)@.queue.drop_first(), ..old(self)@ }),
    {
        self.queue.dequeue()
    }

    pub fn queued_len(&self) -> (r: usize)
        ensures
            r == self@.queue.len(),
    {
        self.queue.len()
    }

    pub fn is_queue_full(&self) -> (r: bool)
        ensures
            r == (self@.queue.len() == self@.capacity),
    {
        self.queue.is_full()
    }
}

} // verus!
