use crate::queue::{enqueue_error, CommandQueue, QueueError};
use crate::static_queue::{static_enqueue_error, StaticCommandQueue, StaticQueueError};
use crate::submission::ValidatedSubmission;
use vstd::prelude::*;

verus! {

/// Some submission in `s` carries the command identifier `id`.
pub open spec fn has_command_id(s: Seq<ValidatedSubmission>, id: u64) -> bool {
    exists|i: int| 0 <= i < s.len() && #[trigger] s[i].command_id() == id
}

/// No two submissions in `s` carry the same command identifier.
pub open spec fn distinct_ids(s: Seq<ValidatedSubmission>) -> bool {
    forall|i: int, j: int|
        0 <= i < j < s.len() ==> #[trigger] s[i].command_id() != #[trigger] s[j].command_id()
}

/// Queues are first in, first out: appending a submission never changes
/// which submission is oldest, and removing the oldest commutes with
/// appending.
pub proof fn lemma_fifo(pending: Seq<ValidatedSubmission>, s: ValidatedSubmission)
    requires
        pending.len() > 0,
    ensures
        pending.push(s)[0] == pending[0],
        pending.push(s).drop_first() == pending.drop_first().push(s),
{
    assert(pending.push(s).drop_first() =~= pending.drop_first().push(s));
}

/// Once the oldest submission leaves a queue whose identifiers are distinct,
/// its identifier is no longer pending and may be used again; the
/// remaining identifiers stay distinct.
pub proof fn lemma_dequeued_id_is_free(pending: Seq<ValidatedSubmission>)
    requires
        pending.len() > 0,
        distinct_ids(pending),
    ensures
        !has_command_id(pending.drop_first(), pending[0].command_id()),
        distinct_ids(pending.drop_first()),
{
    let rest = pending.drop_first();
    if has_command_id(rest, pending[0].command_id()) {
        let i = choose|i: int| 0 <= i < rest.len() && #[trigger] rest[i].command_id()
            == pending[0].command_id();
        assert(rest[i] == pending[i + 1]);
        assert(pending[0].command_id() != pending[i + 1].command_id());
    }
    assert forall|i: int, j: int|
        0 <= i < j < rest.len() implies #[trigger] rest[i].command_id()
        != #[trigger] rest[j].command_id() by {
        assert(rest[i] == pending[i + 1] && rest[j] == pending[j + 1]);
    }
}

/// Queue behavior required by a generic GPU driver: a bounded FIFO of
/// validated submissions.
///
/// This trait is intentionally open: external crates may implement it
/// for their own queue types. To meet the method contracts an implementation
/// must define the specification functions. Their default bodies exist only
/// so that implementations written outside Verus compile; such
/// implementations are trusted to meet the contracts, not checked against
/// them.
pub trait SubmissionQueue: core::fmt::Debug {
    type Error: core::fmt::Debug + PartialEq + Eq;

    /// The queue's internal consistency.
    closed spec fn queue_inv(&self) -> bool {
        arbitrary()
    }

    /// The pending submissions, oldest first.
    closed spec fn queued(&self) -> Seq<ValidatedSubmission> {
        arbitrary()
    }

    /// How many submissions the queue can hold.
    closed spec fn queue_capacity(&self) -> nat {
        arbitrary()
    }

    /// The answer `enqueue` gives for `submission` on a queue holding
    /// `queued` with room for `capacity`: the queue decides by its pending
    /// submissions and capacity alone.
    closed spec fn enqueue_decision(
        queued: Seq<ValidatedSubmission>,
        capacity: nat,
        submission: ValidatedSubmission,
    ) -> Result<(), Self::Error> {
        arbitrary()
    }

    /// Append a submission; a rejected submission leaves the queue unchanged.
    fn enqueue(&mut self, submission: ValidatedSubmission) -> (r: Result<(), Self::Error>)
        requires
            old(self).queue_inv(),
        ensures
            final(self).queue_inv(),
            final(self).queue_capacity() == old(self).queue_capacity(),
            r == Self::enqueue_decision(old(self).queued(), old(self).queue_capacity(), submission),
            r is Ok ==> old(self).queued().len() < old(self).queue_capacity() && final(self).queued() == old(self).queued().push(submission),
            r is Err ==> final(self).queued() == old(self).queued(),
    ;

    /// Remove and return the oldest submission.
    fn dequeue(&mut self) -> (r: Option<ValidatedSubmission>)
        requires
            old(self).queue_inv(),
        ensures
            final(self).queue_inv(),
            final(self).queue_capacity() == old(self).queue_capacity(),
            old(self).queued().len() == 0 ==> r is None && final(self).queued() == old(self).queued(),
            old(self).queued().len() > 0 ==> r == Some(old(self).queued()[0]) && final(self).queued() == old(self).queued().drop_first(),
    ;

    /// Borrow the oldest submission.
    fn peek(&self) -> (r: Option<&ValidatedSubmission>)
        requires
            self.queue_inv(),
        ensures
            self.queued().len() == 0 ==> r is None,
            self.queued().len() > 0 ==> (r matches Some(s) && *s == self.queued()[0]),
    ;

    fn len(&self) -> (r: usize)
        requires
            self.queue_inv(),
        ensures
            r == self.queued().len(),
    ;

    fn is_empty(&self) -> (r: bool)
        requires
            self.queue_inv(),
        ensures
            r == (self.queued().len() == 0),
    ;

    fn is_full(&self) -> (r: bool)
        requires
            self.queue_inv(),
        ensures
            r == (self.queued().len() == self.queue_capacity()),
    ;
}

impl SubmissionQueue for CommandQueue {
    type Error = QueueError;

    open spec fn queue_inv(&self) -> bool {
        self.wf()
    }

    open spec fn queued(&self) -> Seq<ValidatedSubmission> {
        self.pending()
    }

    open spec fn queue_capacity(&self) -> nat {
        self.spec_capacity() as nat
    }

    open spec fn enqueue_decision(
        queued: Seq<ValidatedSubmission>,
        capacity: nat,
        submission: ValidatedSubmission,
    ) -> Result<(), QueueError> {
        match enqueue_error(queued, capacity as usize, submission) {
            Some(e) => Err(e),
            None => Ok(()),
        }
    }

    fn enqueue(&mut self, submission: ValidatedSubmission) -> (r: Result<(), Self::Error>)
        ensures
            match enqueue_error(old(self).pending(), old(self).spec_capacity(), submission) {
                Some(e) => r == Err::<(), QueueError>(e) && final(self).pending() == old(self).pending(),
                None => r == Ok::<(), QueueError>(()) && final(self).pending() == old(self).pending().push(submission),
            },
    {
        CommandQueue::enqueue(self, submission)
    }

    fn dequeue(&mut self) -> (r: Option<ValidatedSubmission>) {
        CommandQueue::dequeue(self)
    }

    fn peek(&self) -> (r: Option<&ValidatedSubmission>) {
        CommandQueue::peek(self)
    }

    fn len(&self) -> (r: usize) {
        CommandQueue::len(self)
    }

    fn is_empty(&self) -> (r: bool) {
        CommandQueue::is_empty(self)
    }

    fn is_full(&self) -> (r: bool) {
        CommandQueue::is_full(self)
    }
}

impl<const N: usize> SubmissionQueue for StaticCommandQueue<N> {
    type Error = StaticQueueError;

    open spec fn queue_inv(&self) -> bool {
        self.wf()
    }

    open spec fn queued(&self) -> Seq<ValidatedSubmission> {
        self.pending()
    }

    open spec fn queue_capacity(&self) -> nat {
        N as nat
    }

    open spec fn enqueue_decision(
        queued: Seq<ValidatedSubmission>,
        capacity: nat,
        submission: ValidatedSubmission,
    ) -> Result<(), StaticQueueError> {
        match static_enqueue_error(queued, capacity as usize, submission) {
            Some(e) => Err(e),
            None => Ok(()),
        }
    }

    fn enqueue(&mut self, submission: ValidatedSubmission) -> (r: Result<(), Self::Error>)
        ensures
            match static_enqueue_error(old(self).pending(), N, submission) {
                Some(e) => r == Err::<(), StaticQueueError>(e) && final(self).pending() == old(self).pending(),
                None => r == Ok::<(), StaticQueueError>(()) && final(self).pending() == old(self).pending().push(submission),
            },
    {
        StaticCommandQueue::enqueue(self, submission)
    }

    fn dequeue(&mut self) -> (r: Option<ValidatedSubmission>) {
        StaticCommandQueue::dequeue(self)
    }

    fn peek(&self) -> (r: Option<&ValidatedSubmission>) {
        StaticCommandQueue::peek(self)
    }

    fn len(&self) -> (r: usize) {
        StaticCommandQueue::len(self)
    }

    fn is_empty(&self) -> (r: bool) {
        StaticCommandQueue::is_empty(self)
    }

    fn is_full(&self) -> (r: bool) {
        StaticCommandQueue::is_full(self)
    }
}

} // verus!
