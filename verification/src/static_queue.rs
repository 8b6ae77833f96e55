use crate::queue_backend::{distinct_ids, has_command_id};
use crate::submission::ValidatedSubmission;
use vstd::prelude::*;

verus! {

#[derive(Debug, PartialEq, Eq)]
pub enum StaticQueueError {
    ZeroCapacity,
    QueueFull { capacity: usize },
    DuplicateCommandId { id: u64 },
}

/// Fixed-capacity FIFO queue.
///
/// The capacity is part of the queue's type. The submissions live in a ring
/// of `N` slots: `len` of them, starting at slot `head`, are occupied and
/// every other slot is empty.
#[derive(Debug)]
pub struct StaticCommandQueue<const N: usize> {
    slots: [Option<ValidatedSubmission>; N],
    head: usize,
    len: usize,
}

/// The slot `i` places after `head` in a ring of `n` slots.
pub open spec fn ring_slot(n: int, head: int, i: int) -> int {
    if head + i < n {
        head + i
    } else {
        head + i - n
    }
}

/// How many places after `head` the slot `k` lies in a ring of `n` slots.
pub open spec fn ring_offset(n: int, head: int, k: int) -> int {
    if k >= head {
        k - head
    } else {
        k + n - head
    }
}

/// The error enqueuing `submission` into a static queue of `capacity`
/// holding `pending` reports, or `None` when it is accepted.
pub open spec fn static_enqueue_error(
    pending: Seq<ValidatedSubmission>,
    capacity: usize,
    submission: ValidatedSubmission,
) -> Option<StaticQueueError> {
    if has_command_id(pending, submission.command_id()) {
        Some(StaticQueueError::DuplicateCommandId { id: submission.command_id() })
    } else if pending.len() >= capacity {
        Some(StaticQueueError::QueueFull { capacity })
    } else {
        None
    }
}

/// An empty slot, for filling a fresh ring.
fn empty_slot(_index: usize) -> (r: Option<ValidatedSubmission>)
    ensures
        r is None,
{
    None
}

/// An array of `N` empty slots, built by `std::array::from_fn`.
///
/// `from_fn` calls the callback once per index and stores its result at that
/// index; the callback here always answers `None`.
#[verifier::external_body]
fn empty_slots<const N: usize>() -> (r: [Option<ValidatedSubmission>; N])
    ensures
        forall|i: int| 0 <= i < N ==> (#[trigger] r@[i]) is None,
{
    std::array::from_fn(|i| empty_slot(i))
}

impl<const N: usize> StaticCommandQueue<N> {
    /// The submissions waiting in the queue, oldest first.
    pub closed spec fn pending(&self) -> Seq<ValidatedSubmission> {
        Seq::new(
            self.len as nat,
            |i: int| self.slots@[ring_slot(N as int, self.head as int, i)].unwrap(),
        )
    }

    pub closed spec fn wf(&self) -> bool {
        &&& 0 < N
        &&& self.head < N
        &&& self.len <= N
        &&& forall|k: int|
            0 <= k < N ==> ((#[trigger] self.slots@[k]) is Some <==> ring_offset(
                N as int,
                self.head as int,
                k,
            ) < self.len)
        &&& distinct_ids(self.pending())
    }

    proof fn lemma_ring(n: int, head: int)
        requires
            0 <= head < n,
        ensures
            forall|i: int|
                0 <= i < n ==> 0 <= #[trigger] ring_slot(n, head, i) < n && ring_offset(
                    n,
                    head,
                    ring_slot(n, head, i),
                ) == i,
            forall|k: int|
                0 <= k < n ==> 0 <= #[trigger] ring_offset(n, head, k) < n && ring_slot(
                    n,
                    head,
                    ring_offset(n, head, k),
                ) == k,
    {
    }

    /// A well-formed queue holds at most `N` submissions, and no two pending
    /// submissions share a command identifier.
    pub proof fn lemma_wf_bounds(&self)
        requires
            self.wf(),
        ensures
            0 < N,
            self.pending().len() <= N,
            distinct_ids(self.pending()),
    {
    }

    pub fn new() -> (r: Result<Self, StaticQueueError>)
        ensures
            N == 0 ==> r == Err::<Self, StaticQueueError>(StaticQueueError::ZeroCapacity),
            N > 0 ==> (r matches Ok(q) && q.wf() && q.pending() == Seq::<
                ValidatedSubmission,
            >::empty()),
    {
        if N == 0 {
            return Err(StaticQueueError::ZeroCapacity);
        }
        let q = Self { slots: empty_slots(), head: 0, len: 0 };
        assert(q.pending() =~= Seq::<ValidatedSubmission>::empty());
        Ok(q)
    }

    /// The slot just past the newest submission.
    fn tail_index(&self) -> (r: usize)
        requires
            self.wf(),
            self.len < N,
        ensures
            r == ring_slot(N as int, self.head as int, self.len as int),
            r < N,
    {
        let distance_to_end = N - self.head;
        if self.len >= distance_to_end {
            self.len - distance_to_end
        } else {
            self.head + self.len
        }
    }

    pub fn capacity(&self) -> (r: usize)
        ensures
            r == N,
    {
        N
    }

    pub fn len(&self) -> (r: usize)
        ensures
            r == self.pending().len(),
    {
        self.len
    }

    pub fn is_empty(&self) -> (r: bool)
        ensures
            r == (self.pending().len() == 0),
    {
        self.len == 0
    }

    pub fn is_full(&self) -> (r: bool)
        ensures
            r == (self.pending().len() == N),
    {
        self.len == N
    }

    /// Whether an occupied slot holds a submission with command identifier `command_id`.
    fn holds_command(&self, command_id: u64) -> (r: bool)
        requires
            self.wf(),
        ensures
            r == has_command_id(self.pending(), command_id),
    {
        proof {
            Self::lemma_ring(N as int, self.head as int);
        }
        let mut k: usize = 0;
        while k < N
            invariant
                self.wf(),
                k <= N,
                forall|j: int|
                    0 <= j < k ==> !(#[trigger] self.slots@[j] matches Some(q) && q.command_id()
                        == command_id),
            decreases N - k,
        {
            match &self.slots[k] {
                Some(queued) => {
                    if queued.command().id().get() == command_id {
                        proof {
                            let i = ring_offset(N as int, self.head as int, k as int);
                            assert(self.slots@[k as int] is Some);
                            assert(0 <= i < self.pending().len());
                            assert(self.pending()[i] == *queued);
                            assert(self.pending()[i].command_id() == command_id);
                        }
                        return true;
                    }
                },
                None => {},
            }
            k = k + 1;
        }
        proof {
            if has_command_id(self.pending(), command_id) {
                let i = choose|i: int|
                    0 <= i < self.pending().len() && #[trigger] self.pending()[i].command_id()
                        == command_id;
                let j = ring_slot(N as int, self.head as int, i);
                assert(self.slots@[j] is Some);
            }
        }
        false
    }

    /// Move a validated submission into the queue.
    ///
    /// Failed enqueue operations do not modify the queue.
    pub fn enqueue(&mut self, submission: ValidatedSubmission) -> (r: Result<(), StaticQueueError>)
        requires
            old(self).wf(),
        ensures
            final(self).wf(),
            match static_enqueue_error(old(self).pending(), N, submission) {
                Some(e) => r == Err::<(), StaticQueueError>(e) && final(self).pending() == old(self).pending(),
                None => r == Ok::<(), StaticQueueError>(()) && final(self).pending() == old(self).pending().push(submission),
            },
    {
        let command_id = submission.command().id().get();
        if self.holds_command(command_id) {
            return Err(StaticQueueError::DuplicateCommandId { id: command_id });
        }
        if self.is_full() {
            return Err(StaticQueueError::QueueFull { capacity: N });
        }
        let tail = self.tail_index();
        let ghost old_pending = self.pending();
        let ghost old_slots = self.slots@;
        proof {
            Self::lemma_ring(N as int, self.head as int);
        }
        self.slots[tail] = Some(submission);
        self.len = self.len + 1;
        proof {
            let p = self.pending();
            assert forall|i: int| 0 <= i < old_pending.len() implies #[trigger] p[i]
                == old_pending[i] by {
                assert(ring_slot(N as int, self.head as int, i) != tail);
            }
            assert(p =~= old_pending.push(submission));
            assert forall|k: int|
                0 <= k < N implies ((#[trigger] self.slots@[k]) is Some <==> ring_offset(
                N as int,
                self.head as int,
                k,
            ) < self.len) by {
                if k != tail {
                    assert(self.slots@[k] == old_slots[k]);
                }
            }
            assert forall|i: int, j: int|
                0 <= i < j < p.len() implies #[trigger] p[i].command_id()
                != #[trigger] p[j].command_id() by {
                if j == p.len() - 1 {
                    assert(p[i] == old_pending[i]);
                } else {
                    assert(p[i] == old_pending[i] && p[j] == old_pending[j]);
                }
            }
        }
        Ok(())
    }

    /// Borrow the oldest submission without removing it.
    pub fn peek(&self) -> (r: Option<&ValidatedSubmission>)
        requires
            self.wf(),
        ensures
            self.pending().len() == 0 ==> r is None,
            self.pending().len() > 0 ==> (r matches Some(s) && *s == self.pending()[0]),
    {
        if self.is_empty() {
            return None;
        }
        proof {
            Self::lemma_ring(N as int, self.head as int);
            assert(ring_offset(N as int, self.head as int, self.head as int) == 0);
        }
        match &self.slots[self.head] {
            Some(submission) => Some(submission),
            None => None,
        }
    }

    /// Remove and return the oldest submission.
    pub fn dequeue(&mut self) -> (r: Option<ValidatedSubmission>)
        requires
            old(self).wf(),
        ensures
            final(self).wf(),
            old(self).pending().len() == 0 ==> r is None && final(self).pending() == old(self).pending(),
            old(self).pending().len() > 0 ==> r == Some(old(self).pending()[0]) && final(self).pending() == old(self).pending().drop_first(),
    {
        if self.is_empty() {
            return None;
        }
        let ghost old_pending = self.pending();
        let ghost old_slots = self.slots@;
        let ghost old_head = self.head as int;
        proof {
            Self::lemma_ring(N as int, self.head as int);
            assert(ring_offset(N as int, self.head as int, self.head as int) == 0);
        }
        let head = self.head;
        let submission = match self.slots[head].take() {
            Some(s) => s,
            None => return None,
        };
        proof {
            vstd::arithmetic::div_mod::lemma_mod_self_0(N as int);
            if head + 1 < N {
                vstd::arithmetic::div_mod::lemma_small_mod((head + 1) as nat, N as nat);
            }
        }
        self.head = (head + 1) % N;
        self.len = self.len - 1;
        proof {
            let new_head = self.head as int;
            assert(new_head == if old_head + 1 < N { old_head + 1 } else { 0 });
            Self::lemma_ring(N as int, new_head);
            let p = self.pending();
            assert forall|i: int| 0 <= i < p.len() implies #[trigger] p[i] == old_pending[i + 1] by {
                assert(ring_slot(N as int, new_head, i) == ring_slot(N as int, old_head, i + 1));
                assert(ring_slot(N as int, old_head, i + 1) != head);
            }
            assert(p =~= old_pending.drop_first());
            assert forall|k: int|
                0 <= k < N implies ((#[trigger] self.slots@[k]) is Some <==> ring_offset(
                N as int,
                new_head,
                k,
            ) < self.len) by {
                if k != head {
                    assert(self.slots@[k] == old_slots[k]);
                }
            }
            assert forall|i: int, j: int|
                0 <= i < j < p.len() implies #[trigger] p[i].command_id()
                != #[trigger] p[j].command_id() by {
                assert(p[i] == old_pending[i + 1] && p[j] == old_pending[j + 1]);
            }
        }
        Some(submission)
    }
}

} // verus!
