use crate::command::{command_error, CommandError, RawCommand, ValidatedCommand};
use crate::{BufferId, DriverError, GpuDevice};
use vstd::prelude::*;
use vstd::std_specs::convert::FromSpecImpl;

verus! {

/// Minimal capability needed by submission validation.
///
/// Implementations may obtain this information from a real device,
/// a simulated device, or a test double. The answer for a buffer is a
/// function of the implementation's state and the identifier.
/// To meet the method contract an implementation must define the
/// specification function. Its default body exists only so that
/// implementations written outside Verus compile; such implementations are
/// trusted to meet the contract, not checked against it.
pub trait BufferInfo {
    /// What `initialized_len` reports for `id`.
    closed spec fn initialized_len_spec(&self, id: BufferId) -> Result<usize, DriverError> {
        arbitrary()
    }

    fn initialized_len(&self, id: BufferId) -> (r: Result<usize, DriverError>)
        ensures
            r == self.initialized_len_spec(id),
    ;
}

impl BufferInfo for GpuDevice {
    open spec fn initialized_len_spec(&self, id: BufferId) -> Result<usize, DriverError> {
        if self@.buffers.contains_key(id) {
            Ok(self@.buffers[id].used as usize)
        } else {
            Err(DriverError::UnknownBuffer(id))
        }
    }

    fn initialized_len(&self, id: BufferId) -> (r: Result<usize, DriverError>) {
        GpuDevice::initialized_len(self, id)
    }
}

/// Untrusted request received at the driver boundary.
#[derive(Debug, Clone, Copy, PartialEq, Eq)]
pub struct SubmissionRequest {
    pub buffer_id: BufferId,
    pub command: RawCommand,
}

/// Fully validated command associated with an existing buffer.
#[derive(Debug, Clone, PartialEq, Eq)]
pub struct ValidatedSubmission {
    buffer_id: BufferId,
    command: ValidatedCommand,
}

impl ValidatedSubmission {
    pub closed spec fn spec_buffer_id(&self) -> BufferId {
        self.buffer_id
    }

    pub closed spec fn spec_command(&self) -> ValidatedCommand {
        self.command
    }

    /// The validated form of `request`.
    pub closed spec fn spec_from_request(request: SubmissionRequest) -> ValidatedSubmission {
        ValidatedSubmission {
            buffer_id: request.buffer_id,
            command: ValidatedCommand::spec_from_raw(request.command),
        }
    }

    /// The submission built from `request` carries its buffer and the
    /// command built from its raw command, and it is the only submission
    /// that matches `request`.
    pub proof fn lemma_from_request(request: SubmissionRequest, s: ValidatedSubmission)
        ensures
            Self::spec_from_request(request).buffer_id() == request.buffer_id,
            Self::spec_from_request(request).command() == ValidatedCommand::spec_from_raw(
                request.command,
            ),
            Self::spec_from_request(request).matches_request(request),
            s.matches_request(request) ==> s == Self::spec_from_request(request),
    {
        ValidatedCommand::lemma_from_raw(request.command, s.command());
    }

    /// The command identifier of this submission.
    pub open spec fn command_id(&self) -> u64 {
        self.command().id().get()
    }

    /// This submission is the validated form of `request`.
    pub open spec fn matches_request(&self, request: SubmissionRequest) -> bool {
        &&& self.buffer_id() == request.buffer_id
        &&& self.command().matches_raw(request.command)
    }

    #[verifier::when_used_as_spec(spec_buffer_id)]
    pub fn buffer_id(&self) -> (r: BufferId)
        ensures
            r == self.spec_buffer_id(),
    {
        self.buffer_id
    }

    #[verifier::when_used_as_spec(spec_command)]
    pub fn command(&self) -> (r: ValidatedCommand)
        ensures
            r == self.spec_command(),
    {
        self.command
    }
}

#[derive(Debug, PartialEq, Eq)]
pub enum SubmissionError {
    Command(CommandError),
    Buffer(DriverError),
    RangeExceedsInitialized { end: usize, initialized: usize },
}

impl From<CommandError> for SubmissionError {
    fn from(error: CommandError) -> (r: Self)
        ensures
            r == SubmissionError::Command(error),
    {
        SubmissionError::Command(error)
    }
}

impl FromSpecImpl<CommandError> for SubmissionError {
    open spec fn obeys_from_spec() -> bool {
        true
    }

    open spec fn from_spec(v: CommandError) -> Self {
        SubmissionError::Command(v)
    }
}

impl From<DriverError> for SubmissionError {
    fn from(error: DriverError) -> (r: Self)
        ensures
            r == SubmissionError::Buffer(error),
    {
        SubmissionError::Buffer(error)
    }
}

impl FromSpecImpl<DriverError> for SubmissionError {
    open spec fn obeys_from_spec() -> bool {
        true
    }

    open spec fn from_spec(v: DriverError) -> Self {
        SubmissionError::Buffer(v)
    }
}

/// The error that validating `request` reports when the buffer lookup
/// answers `lookup`, or `None` when the submission is accepted.
///
/// Order: the raw command, then the buffer, then the command range against
/// the buffer's initialized data.
pub open spec fn submission_error(
    request: SubmissionRequest,
    lookup: Result<usize, DriverError>,
) -> Option<SubmissionError> {
    let raw = request.command;
    if command_error(raw) is Some {
        Some(SubmissionError::Command(command_error(raw)->0))
    } else {
        match lookup {
            Err(e) => Some(SubmissionError::Buffer(e)),
            Ok(initialized) => if raw.offset + raw.length > initialized {
                Some(
                    SubmissionError::RangeExceedsInitialized {
                        end: (raw.offset + raw.length) as usize,
                        initialized,
                    },
                )
            } else {
                None
            },
        }
    }
}

/// `r` is what validating `request` gives when the buffer lookup answers `lookup`.
pub open spec fn submission_outcome(
    request: SubmissionRequest,
    lookup: Result<usize, DriverError>,
    r: Result<ValidatedSubmission, SubmissionError>,
) -> bool {
    match submission_error(request, lookup) {
        Some(e) => r == Err::<ValidatedSubmission, SubmissionError>(e),
        None => r matches Ok(s) && s.matches_request(request) && s
            == ValidatedSubmission::spec_from_request(request) && s.buffer_id()
            == request.buffer_id && s.command() == ValidatedCommand::spec_from_raw(
            request.command,
        ),
    }
}

/// Validate a userspace submission.
///
/// Validation order:
///
/// 1. Validate the raw command.
/// 2. Resolve the buffer.
/// 3. Check the command range against initialized data.
/// 4. Construct the validated submission.
pub fn validate_submission<B>(buffers: &B, request: SubmissionRequest) -> (r: Result<
    ValidatedSubmission,
    SubmissionError,
>) where B: BufferInfo
    ensures
        submission_outcome(request, buffers.initialized_len_spec(request.buffer_id), r),
{
    let cmd = match ValidatedCommand::try_from(request.command) {
        Ok(cmd) => cmd,
        Err(e) => return Err(SubmissionError::Command(e)),
    };
    let initialized = match buffers.initialized_len(request.buffer_id) {
        Ok(n) => n,
        Err(e) => return Err(SubmissionError::Buffer(e)),
    };
    let end = cmd.range().end();
    if end > initialized {
        return Err(SubmissionError::RangeExceedsInitialized { end, initialized });
    }
    Ok(ValidatedSubmission { buffer_id: request.buffer_id, command: cmd })
}

} // verus!
