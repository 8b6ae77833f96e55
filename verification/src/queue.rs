use crate::command::CommandId;
use crate::queue_backend::{distinct_ids, has_command_id};
use crate::submission::ValidatedSubmission;
use std::collections::{HashSet, VecDeque};
use vstd::prelude::*;

verus! {

#[derive(Debug, PartialEq, Eq)]
pub enum QueueError {
    ZeroCapacity,
    QueueFull { capacity: usize },
    DuplicateCommandId(CommandId),
}

/// A bounded FIFO of validated submissions in which no two pending
/// submissions share a command identifier.
#[derive(Debug)]
pub struct CommandQueue {
    capacity: usize,
    pending: VecDeque<ValidatedSubmission>,
    active_ids: HashSet<u64>,
}

/// The error enqueuing `submission` into a queue holding `pending` with room
/// for `capacity` reports, or `None` when it is accepted.
pub open spec fn enqueue_error(
    pending: Seq<ValidatedSubmission>,
    capacity: usize,
    submission: ValidatedSubmission,
) -> Option<QueueError> {
    if has_command_id(pending, submission.command_id()) {
        Some(QueueError::DuplicateCommandId(submission.command().id()))
    } else if pending.len() >= capacity {
        Some(QueueError::QueueFull { capacity })
    } else {
        None
    }
}

impl CommandQueue {
    /// The submissions waiting in the queue, oldest first.
    pub closed spec fn pending(&self) -> Seq<ValidatedSubmission> {
        self.pending@
    }

    pub closed spec fn spec_capacity(&self) -> usize {
        self.capacity
    }

    /// The capacity is positive and never exceeded, pending identifiers are
    /// distinct, and the set of active identifiers is exactly theirs.
    pub closed spec fn wf(&self) -> bool {
        &&& self.capacity > 0
        &&& self.pending@.len() <= self.capacity
        &&& distinct_ids(self.pending@)
        &&& forall|id: u64| #[trigger]
            self.active_ids@.contains(id) <==> has_command_id(self.pending@, id)
    }

    /// A well-formed queue holds at most its capacity, and no two pending
    /// submissions share a command identifier.
    pub proof fn lemma_wf_bounds(&self)
        requires
            self.wf(),
        ensures
            0 < self.spec_capacity(),
            self.pending().len() <= self.spec_capacity(),
            distinct_ids(self.pending()),
    {
    }

    pub fn new(capacity: usize) -> (r: Result<Self, QueueError>)
        ensures
            capacity == 0 ==> r == Err::<Self, QueueError>(QueueError::ZeroCapacity),
            capacity > 0 ==> (r matches Ok(q) && q.wf() && q.pending() == Seq::<
                ValidatedSubmission,
            >::empty() && q.spec_capacity() == capacity),
    {
        if capacity == 0 {
            return Err(QueueError::ZeroCapacity);
        }
        let q = Self {
            capacity,
            pending: VecDeque::with_capacity(capacity),
            active_ids: HashSet::new(),
        };
        Ok(q)
    }

    /// Move a validated submission into the pending queue.
    ///
    /// Failed enqueue operations do not modify the queue.
    pub fn enqueue(&mut self, submission: ValidatedSubmission) -> (r: Result<(), QueueError>)
        requires
            old(self).wf(),
        ensures
            final(self).wf(),
            final(self).spec_capacity() == old(self).spec_capacity(),
            match enqueue_error(old(self).pending(), old(self).spec_capacity(), submission) {
                Some(e) => r == Err::<(), QueueError>(e) && final(self).pending() == old(self).pending(),
                None => r == Ok::<(), QueueError>(()) && final(self).pending() == old(self).pending().push(submission),
            },
    {
        let cmd_id = submission.command().id();
        if self.contains_command(cmd_id) {
            return Err(QueueError::DuplicateCommandId(cmd_id));
        }
        if self.is_full() {
            return Err(QueueError::QueueFull { capacity: self.capacity });
        }
        let raw = cmd_id.get();
        let ghost old_pending = self.pending@;
        self.active_ids.insert(raw);
        self.pending.push_back(submission);
        proof {
            let p = self.pending@;
            assert forall|i: int, j: int|
                0 <= i < j < p.len() implies #[trigger] p[i].command_id() != #[trigger] p[j].command_id() by {
                if j == p.len() - 1 {
                    assert(old_pending[i] == p[i]);
                } else {
                    assert(old_pending[i] == p[i] && old_pending[j] == p[j]);
                }
            }
            assert forall|id: u64| #[trigger] self.active_ids@.contains(id) <==> has_command_id(p, id) by {
                if has_command_id(old_pending, id) {
                    let i = choose|i: int| 0 <= i < old_pending.len() && old_pending[i].command_id() == id;
                    assert(p[i] == old_pending[i]);
                }
                if has_command_id(p, id) {
                    let i = choose|i: int| 0 <= i < p.len() && p[i].command_id() == id;
                    if i < old_pending.len() {
                        assert(p[i] == old_pending[i]);
                    }
                }
                assert(p[p.len() - 1] == submission);
            }
        }
        Ok(())
    }

    /// Remove and return the oldest pending submission.
    pub fn dequeue(&mut self) -> (r: Option<ValidatedSubmission>)
        requires
            old(self).wf(),
        ensures
            final(self).wf(),
            final(self).spec_capacity() == old(self).spec_capacity(),
            old(self).pending().len() == 0 ==> r is None && final(self).pending() == old(self).pending(),
            old(self).pending().len() > 0 ==> r == Some(old(self).pending()[0]) && final(self).pending() == old(self).pending().drop_first(),
    {
        let ghost old_pending = self.pending@;
        let submission = match self.pending.pop_front() {
            Some(s) => s,
            None => return None,
        };
        let raw = submission.command().id().get();
        self.active_ids.remove(&raw);
        proof {
            let p = self.pending@;
            assert(p =~= old_pending.drop_first());
            assert forall|i: int, j: int|
                0 <= i < j < p.len() implies #[trigger] p[i].command_id() != #[trigger] p[j].command_id() by {
                assert(p[i] == old_pending[i + 1] && p[j] == old_pending[j + 1]);
            }
            assert forall|id: u64| #[trigger] self.active_ids@.contains(id) <==> has_command_id(p, id) by {
                if has_command_id(old_pending, id) && id != raw {
                    let i = choose|i: int| 0 <= i < old_pending.len() && old_pending[i].command_id() == id;
                    assert(i != 0);
                    assert(p[i - 1] == old_pending[i]);
                }
                if has_command_id(p, id) {
                    let i = choose|i: int| 0 <= i < p.len() && p[i].command_id() == id;
                    assert(p[i] == old_pending[i + 1]);
                    assert(old_pending[0].command_id() != old_pending[i + 1].command_id());
                }
            }
        }
        Some(submission)
    }

    /// Borrow the oldest submission without removing it.
    pub fn peek(&self) -> (r: Option<&ValidatedSubmission>)
        ensures
            self.pending().len() == 0 ==> r is None,
            self.pending().len() > 0 ==> (r matches Some(s) && *s == self.pending()[0]),
    {
        if self.pending.len() == 0 {
            None
        } else {
            Some(&self.pending[0])
        }
    }

    pub fn len(&self) -> (r: usize)
        ensures
            r == self.pending().len(),
    {
        self.pending.len()
    }

    pub fn capacity(&self) -> (r: usize)
        ensures
            r == self.spec_capacity(),
    {
        self.capacity
    }

    pub fn is_empty(&self) -> (r: bool)
        ensures
            r == (self.pending().len() == 0),
    {
        self.pending.len() == 0
    }

    pub fn is_full(&self) -> (r: bool)
        ensures
            r == (self.pending().len() == self.spec_capacity()),
    {
        self.pending.len() == self.capacity
    }

    /// Whether a pending submission carries the command identifier `id`.
    pub fn contains_command(&self, id: CommandId) -> (r: bool)
        requires
            self.wf(),
        ensures
            r == has_command_id(self.pending(), id.get()),
    {
        self.active_ids.contains(&id.get())
    }
}

} // verus!
