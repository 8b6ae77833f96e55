//! A simulated GPU driver: device lifecycle, DMA buffers, command
//! validation, submission queues and a typed register interface.
use std::collections::HashMap;
use vstd::prelude::*;

pub mod command;
pub mod device_state;
pub mod driver;
pub mod generic_driver;
pub mod interrupts;
pub mod mmio;
pub mod polling;
pub mod queue;
pub mod queue_backend;
pub mod register_fields;
pub mod registers;
pub mod static_queue;
pub mod submission_session;
pub mod typed_driver;
pub mod typed_generic_driver;
pub mod submission;


verus! {

/// Identifier returned to a client when a GPU buffer is allocated.
///
/// The field is private so clients cannot construct arbitrary identifiers.
#[derive(Debug, Clone, Copy, PartialEq, Eq, Hash)]
pub struct BufferId(u32);

impl BufferId {
    pub closed spec fn spec_value(self) -> u32 {
        self.0
    }
}

/// Errors produced by the simulated GPU-buffer manager.
#[derive(Debug, PartialEq, Eq)]
pub enum DriverError {
    ZeroSizedAllocation,
    UnknownBuffer(BufferId),
    BufferIdExhausted,
    WriteTooLarge { capacity: usize, requested: usize },
    RangeOverflow { offset: usize, length: usize },
    WriteOutOfBounds { offset: usize, length: usize, capacity: usize },
    ReadOutOfBounds { offset: usize, length: usize, initialized: usize },
}

/// `storage` with `bytes` copied in at `offset` (bytes that fall past the end are dropped).
pub open spec fn splice(storage: Seq<u8>, offset: int, bytes: Seq<u8>) -> Seq<u8> {
    Seq::new(
        storage.len(),
        |i: int|
            if offset <= i < offset + bytes.len() {
                bytes[i - offset]
            } else {
                storage[i]
            },
    )
}

/// The abstract contents of a buffer: its identifier, all of its allocated
/// bytes, and how many of them (from the start) hold valid data.
#[verifier::ext_equal]
pub struct BufferState {
    pub id: BufferId,
    pub storage: Seq<u8>,
    pub used: nat,
}

impl BufferState {
    pub open spec fn capacity(self) -> nat {
        self.storage.len()
    }

    /// The valid (initialized) prefix of the buffer.
    pub open spec fn data(self) -> Seq<u8> {
        self.storage.subrange(0, self.used as int)
    }

    pub open spec fn valid(self) -> bool {
        &&& self.used <= self.storage.len()
        &&& self.storage.len() > 0
    }

    /// The buffer after `bytes` are written at `offset`: the valid prefix grows
    /// to cover the written range and never shrinks.
    pub open spec fn written_at(self, offset: int, bytes: Seq<u8>) -> BufferState {
        BufferState {
            id: self.id,
            storage: splice(self.storage, offset, bytes),
            used: if self.used >= offset + bytes.len() {
                self.used
            } else {
                (offset + bytes.len()) as nat
            },
        }
    }

    /// The buffer after its valid contents are replaced by `bytes`.
    pub open spec fn replaced_with(self, bytes: Seq<u8>) -> BufferState {
        BufferState { id: self.id, storage: splice(self.storage, 0, bytes), used: bytes.len() }
    }

    /// The buffer after it is marked as holding no valid data.
    pub open spec fn cleared(self) -> BufferState {
        BufferState { used: 0, ..self }
    }
}

/// A simulated DMA-capable GPU buffer.
///
/// `storage` owns the allocated bytes; `used` is how many bytes currently
/// contain valid data.
#[derive(Debug, PartialEq, Eq)]
pub struct GpuBuffer {
    id: BufferId,
    storage: Vec<u8>,
    used: usize,
}

impl View for GpuBuffer {
    type V = BufferState;

    closed spec fn view(&self) -> BufferState {
        BufferState { id: self.id, storage: self.storage@, used: self.used as nat }
    }
}

impl GpuBuffer {
    #[verifier::type_invariant]
    closed spec fn used_within_storage(self) -> bool {
        self.used <= self.storage.len()
    }

    pub fn id(&self) -> (r: BufferId)
        ensures
            r == self@.id,
    {
        self.id
    }

    pub fn capacity(&self) -> (r: usize)
        ensures
            r == self@.capacity(),
    {
        self.storage.len()
    }

    /// The valid contents of the buffer.
    pub fn data(&self) -> (r: &[u8])
        ensures
            r@ == self@.data(),
            self@.used <= self@.capacity(),
    {
        proof {
            use_type_invariant(self);
        }
        let s = self.storage.as_slice();
        &s[0..self.used]
    }
}

/// The abstract state of a device: the identifier the next allocation will
/// receive, and every live buffer by identifier.
#[verifier::ext_equal]
pub struct DeviceView {
    pub next_id: u32,
    pub buffers: Map<BufferId, BufferState>,
}

/// Owns all buffers that are currently allocated to the simulated device.
#[derive(Debug)]
pub struct GpuDevice {
    next_id: u32,
    buffers: HashMap<u32, GpuBuffer>,
}

impl View for GpuDevice {
    type V = DeviceView;

    closed spec fn view(&self) -> DeviceView {
        DeviceView {
            next_id: self.next_id,
            buffers: Map::new(
                |id: BufferId| self.buffers@.contains_key(id.0),
                |id: BufferId| self.buffers@[id.0]@,
            ),
        }
    }
}

/// The error a write of `length` bytes at `offset` into buffer `id` reports,
/// or `None` when the write succeeds.
pub open spec fn write_at_error(
    v: DeviceView,
    id: BufferId,
    offset: usize,
    length: usize,
) -> Option<DriverError> {
    if !v.buffers.contains_key(id) {
        Some(DriverError::UnknownBuffer(id))
    } else if offset + length > usize::MAX {
        Some(DriverError::RangeOverflow { offset, length })
    } else if offset + length > v.buffers[id].capacity() {
        Some(
            DriverError::WriteOutOfBounds {
                offset,
                length,
                capacity: v.buffers[id].capacity() as usize,
            },
        )
    } else {
        None
    }
}

/// The error a read of `length` bytes at `offset` from buffer `id` reports,
/// or `None` when the range lies inside the valid data.
pub open spec fn read_range_error(
    v: DeviceView,
    id: BufferId,
    offset: usize,
    length: usize,
) -> Option<DriverError> {
    if !v.buffers.contains_key(id) {
        Some(DriverError::UnknownBuffer(id))
    } else if offset + length > usize::MAX {
        Some(DriverError::RangeOverflow { offset, length })
    } else if offset + length > v.buffers[id].used {
        Some(
            DriverError::ReadOutOfBounds {
                offset,
                length,
                initialized: v.buffers[id].used as usize,
            },
        )
    } else {
        None
    }
}

/// The error that replacing the contents of buffer `id` with `length` bytes
/// reports, or `None` when it succeeds.
pub open spec fn write_error(v: DeviceView, id: BufferId, length: usize) -> Option<DriverError> {
    if !v.buffers.contains_key(id) {
        Some(DriverError::UnknownBuffer(id))
    } else if length > v.buffers[id].capacity() {
        Some(
            DriverError::WriteTooLarge {
                capacity: v.buffers[id].capacity() as usize,
                requested: length,
            },
        )
    } else {
        None
    }
}

/// The error that allocating `capacity` bytes reports, or `None` when it succeeds.
pub open spec fn allocate_error(v: DeviceView, capacity: usize) -> Option<DriverError> {
    if capacity == 0 {
        Some(DriverError::ZeroSizedAllocation)
    } else if v.next_id == u32::MAX {
        Some(DriverError::BufferIdExhausted)
    } else {
        None
    }
}

/// `after` is `before` with a fresh, zero-filled buffer of `capacity` bytes
/// allocated under `id`: the identifier is the next one in sequence, no live
/// buffer holds it, and every other buffer is untouched.
pub open spec fn allocated(before: DeviceView, capacity: usize, id: BufferId, after: DeviceView) -> bool {
    &&& id.spec_value() == before.next_id
    &&& !before.buffers.contains_key(id)
    &&& after == DeviceView {
        next_id: (before.next_id + 1) as u32,
        buffers: before.buffers.insert(
            id,
            BufferState { id, storage: Seq::new(capacity as nat, |i: int| 0u8), used: 0 },
        ),
    }
}

/// Replacing a buffer's contents with `data` makes the buffer read back
/// exactly `data`, with its capacity unchanged.
pub proof fn lemma_read_after_write(b: BufferState, data: Seq<u8>)
    requires
        b.valid(),
        data.len() <= b.capacity(),
    ensures
        b.replaced_with(data).data() == data,
        b.replaced_with(data).capacity() == b.capacity(),
        b.replaced_with(data).valid(),
{
    assert(b.replaced_with(data).data() =~= data);
}

/// A write of `data` at `offset` reads back as `data`; the valid prefix
/// covers the written range and never shrinks; bytes outside the range
/// keep their values.
pub proof fn lemma_read_after_write_at(b: BufferState, offset: int, data: Seq<u8>)
    requires
        b.valid(),
        0 <= offset,
        offset + data.len() <= b.capacity(),
    ensures
        b.written_at(offset, data).storage.subrange(offset, offset + data.len()) == data,
        b.written_at(offset, data).used >= offset + data.len(),
        b.written_at(offset, data).used >= b.used,
        b.written_at(offset, data).valid(),
        forall|i: int|
            0 <= i < b.capacity() && !(offset <= i < offset + data.len()) ==> (#[trigger] b.written_at(
                offset,
                data,
            ).storage[i]) == b.storage[i],
{
    assert(b.written_at(offset, data).storage.subrange(offset, offset + data.len()) =~= data);
}

/// Clearing a buffer keeps its capacity and storage but leaves no valid data.
pub proof fn lemma_clear_empties(b: BufferState)
    ensures
        b.cleared().data() == Seq::<u8>::empty(),
        b.cleared().storage == b.storage,
        b.cleared().capacity() == b.capacity(),
{
    assert(b.cleared().data() =~= Seq::<u8>::empty());
}

/// Two successive allocations receive different identifiers, the second
/// numbered after the first, and the second leaves the first buffer as it was.
pub proof fn lemma_allocations_distinct(
    v0: DeviceView,
    c1: usize,
    id1: BufferId,
    v1: DeviceView,
    c2: usize,
    id2: BufferId,
    v2: DeviceView,
)
    requires
        v0.next_id < u32::MAX,
        allocated(v0, c1, id1, v1),
        allocated(v1, c2, id2, v2),
    ensures
        id1 != id2,
        id1.spec_value() < id2.spec_value(),
        v2.buffers.contains_key(id1),
        v2.buffers[id1] == v1.buffers[id1],
{
}

/// Copy `data` into `storage` starting at `offset`.
fn copy_into(storage: &mut Vec<u8>, offset: usize, data: &[u8])
    requires
        offset + data@.len() <= old(storage)@.len(),
        offset + data@.len() <= usize::MAX,
    ensures
        final(storage)@ == splice(old(storage)@, offset as int, data@),
{
    let n = data.len();
    let mut i: usize = 0;
    while i < n
        invariant
            n == data@.len(),
            i <= n,
            offset + n <= storage@.len(),
            offset + n <= usize::MAX,
            storage@.len() == old(storage)@.len(),
            forall|j: int|
                0 <= j < storage@.len() ==> #[trigger] storage@[j] == if offset <= j < offset + i {
                    data@[j - offset]
                } else {
                    old(storage)@[j]
                },
        decreases n - i,
    {
        storage.set(offset + i, data[i]);
        i = i + 1;
    }
    assert(storage@ =~= splice(old(storage)@, offset as int, data@));
}

impl Default for GpuDevice {
    fn default() -> (r: Self)
        ensures
            r.wf(),
            r@.next_id == 0,
            r@.buffers.is_empty(),
    {
        Self::with_next_id(0)
    }
}

impl GpuDevice {
    /// Every stored buffer is filed under its own identifier, was issued
    /// before `next_id`, is non-empty and has its valid prefix inside its storage.
    pub closed spec fn wf(&self) -> bool {
        Self::entries_ok(self.buffers@, self.next_id)
    }

    closed spec fn entries_ok(m: Map<u32, GpuBuffer>, next_id: u32) -> bool {
        forall|k: u32|
            #![trigger m[k]]
            m.contains_key(k) ==> {
                &&& k < next_id
                &&& m[k]@.id == BufferId(k)
                &&& m[k]@.valid()
            }
    }

    /// Storing a valid buffer under its own, already issued identifier keeps
    /// the entries well formed.
    proof fn lemma_insert_ok(m: Map<u32, GpuBuffer>, next_id: u32, k: u32, b: GpuBuffer)
        requires
            Self::entries_ok(m.remove(k), next_id),
            k < next_id,
            b@.id == BufferId(k),
            b@.valid(),
        ensures
            Self::entries_ok(m.insert(k, b), next_id),
    {
        assert forall|j: u32| #[trigger] m.insert(k, b).contains_key(j) implies {
            &&& j < next_id
            &&& m.insert(k, b)[j]@.id == BufferId(j)
            &&& m.insert(k, b)[j]@.valid()
        } by {
            if j != k {
                assert(m.remove(k).contains_key(j));
                assert(m.remove(k)[j] == m[j]);
            }
        }
    }

    proof fn lemma_remove_ok(m: Map<u32, GpuBuffer>, next_id: u32, k: u32)
        requires
            Self::entries_ok(m, next_id),
        ensures
            Self::entries_ok(m.remove(k), next_id),
    {
        assert forall|j: u32| #[trigger] m.remove(k).contains_key(j) implies {
            &&& j < next_id
            &&& m.remove(k)[j]@.id == BufferId(j)
            &&& m.remove(k)[j]@.valid()
        } by {
            assert(m.contains_key(j));
            assert(m.remove(k)[j] == m[j]);
        }
    }

    /// The view's buffers are all filed under their own identifiers, valid,
    /// and issued before `next_id`.
    pub proof fn lemma_view_valid(&self)
        requires
            self.wf(),
        ensures
            forall|id: BufferId| #[trigger]
                self@.buffers.contains_key(id) ==> {
                    &&& self@.buffers[id].id == id
                    &&& self@.buffers[id].valid()
                },
    {
    }

    /// A device holds finitely many buffers.
    pub proof fn lemma_view_finite(&self)
        ensures
            self@.buffers.dom().finite(),
    {
        self.lemma_view_len();
    }

    /// The view holds as many buffers as the device stores.
    proof fn lemma_view_len(&self)
        ensures
            self@.buffers.dom().finite(),
            self@.buffers.len() == self.buffers@.len(),
    {
        let f = |k: u32| BufferId(k);
        assert(vstd::relations::injective_on(f, self.buffers@.dom()));
        assert(self.buffers@.dom().map(f) =~= self@.buffers.dom()) by {
            assert forall|id: BufferId| self@.buffers.dom().contains(id) implies self.buffers@.dom().map(
                f,
            ).contains(id) by {
                assert(f(id.0) == id);
            }
        }
        vstd::set_lib::lemma_map_size(self.buffers@.dom(), self@.buffers.dom(), f);
    }

    /// An empty device whose next allocation receives the identifier `next_id`.
    pub fn with_next_id(next_id: u32) -> (r: Self)
        ensures
            r.wf(),
            r@.next_id == next_id,
            r@.buffers.is_empty(),
    {
        let r = GpuDevice { next_id, buffers: HashMap::new() };
        assert(r@.buffers =~= Map::<BufferId, BufferState>::empty());
        r
    }

    /// `offset + length`, or `RangeOverflow` when it does not fit in `usize`.
    fn checked_end(offset: usize, length: usize) -> (r: Result<usize, DriverError>)
        ensures
            offset + length <= usize::MAX ==> r == Ok::<usize, DriverError>(
                (offset + length) as usize,
            ),
            offset + length > usize::MAX ==> r == Err::<usize, DriverError>(
                DriverError::RangeOverflow { offset, length },
            ),
    {
        match offset.checked_add(length) {
            Some(end) => Ok(end),
            None => Err(DriverError::RangeOverflow { offset, length }),
        }
    }

    proof fn lemma_key(&self, id: BufferId)
        ensures
            self@.buffers.contains_key(id) == self.buffers@.contains_key(id.0),
            self.buffers@.contains_key(id.0) ==> self@.buffers[id] == self.buffers@[id.0]@,
    {
    }

    /// Write data beginning at a specific byte offset.
    ///
    /// A successful write may increase the valid length; a failed write
    /// leaves the device unchanged.
    pub fn write_buffer_at(&mut self, id: BufferId, offset: usize, data: &[u8]) -> (r: Result<
        (),
        DriverError,
    >)
        requires
            old(self).wf(),
        ensures
            final(self).wf(),
            match write_at_error(old(self)@, id, offset, data@.len() as usize) {
                Some(e) => r == Err::<(), DriverError>(e) && final(self)@ == old(self)@,
                None => r is Ok && final(self)@ == (DeviceView {
                    buffers: old(self)@.buffers.insert(
                        id,
                        old(self)@.buffers[id].written_at(offset as int, data@),
                    ),
                    ..old(self)@
                }),
            },
    {
        proof {
            self.lemma_key(id);
        }
        let capacity = match self.buffers.get(&id.0) {
            None => return Err(DriverError::UnknownBuffer(id)),
            Some(buffer) => buffer.capacity(),
        };
        let length = data.len();
        let requested = match Self::checked_end(offset, length) {
            Ok(end) => end,
            Err(e) => return Err(e),
        };
        if requested > capacity {
            return Err(DriverError::WriteOutOfBounds { offset, length, capacity });
        }
        let ghost old_map = self.buffers@;
        let buffer = self.buffers.remove(&id.0).unwrap();
        proof {
            Self::lemma_remove_ok(old_map, self.next_id, id.0);
        }
        let GpuBuffer { id: buffer_id, mut storage, used } = buffer;
        copy_into(&mut storage, offset, data);
        let used = if used < requested {
            requested
        } else {
            used
        };
        let buffer = GpuBuffer { id: buffer_id, storage, used };
        self.buffers.insert(id.0, buffer);
        proof {
            Self::lemma_insert_ok(old_map, self.next_id, id.0, buffer);
            assert(self.buffers@ == old_map.insert(id.0, buffer));
            assert(self@.buffers =~= old(self)@.buffers.insert(
                id,
                old(self)@.buffers[id].written_at(offset as int, data@),
            ));
        }
        Ok(())
    }

    /// Borrow a range of the valid data of a buffer.
    pub fn read_buffer_range(&self, id: BufferId, offset: usize, length: usize) -> (r: Result<
        &[u8],
        DriverError,
    >)
        ensures
            match read_range_error(self@, id, offset, length) {
                Some(e) => r == Err::<&[u8], DriverError>(e),
                None => r matches Ok(bytes) && bytes@ == self@.buffers[id].storage.subrange(
                    offset as int,
                    offset + length,
                ),
            },
    {
        proof {
            self.lemma_key(id);
        }
        let buffer = match self.buffers.get(&id.0) {
            None => return Err(DriverError::UnknownBuffer(id)),
            Some(buffer) => buffer,
        };
        let initialized = buffer.used;
        let end = match Self::checked_end(offset, length) {
            Ok(end) => end,
            Err(e) => return Err(e),
        };
        if initialized < end {
            return Err(DriverError::ReadOutOfBounds { offset, length, initialized });
        }
        proof {
            use_type_invariant(buffer);
        }
        let s = buffer.storage.as_slice();
        Ok(&s[offset..end])
    }

    /// Mark the buffer as containing no valid client data.
    ///
    /// The allocated storage is not overwritten.
    pub fn clear_buffer(&mut self, id: BufferId) -> (r: Result<(), DriverError>)
        requires
            old(self).wf(),
        ensures
            final(self).wf(),
            old(self)@.buffers.contains_key(id) ==> r is Ok && final(self)@ == (DeviceView {
                buffers: old(self)@.buffers.insert(id, old(self)@.buffers[id].cleared()),
                ..old(self)@
            }),
            !old(self)@.buffers.contains_key(id) ==> r == Err::<(), DriverError>(
                DriverError::UnknownBuffer(id),
            ) && final(self)@ == old(self)@,
    {
        proof {
            self.lemma_key(id);
        }
        let ghost old_map = self.buffers@;
        match self.buffers.remove(&id.0) {
            None => {
                proof {
                    assert(self.buffers@ =~= old_map);
                }
                Err(DriverError::UnknownBuffer(id))
            },
            Some(buffer) => {
                proof {
                    Self::lemma_remove_ok(old_map, self.next_id, id.0);
                }
                let GpuBuffer { id: buffer_id, storage, used: _ } = buffer;
                let buffer = GpuBuffer { id: buffer_id, storage, used: 0 };
                self.buffers.insert(id.0, buffer);
                proof {
                    Self::lemma_insert_ok(old_map, self.next_id, id.0, buffer);
                    assert(self.buffers@ == old_map.insert(id.0, buffer));
                    assert(self@.buffers =~= old(self)@.buffers.insert(
                        id,
                        old(self)@.buffers[id].cleared(),
                    ));
                }
                Ok(())
            },
        }
    }

    /// Allocate an empty, zero-filled buffer with the requested capacity.
    ///
    /// Each allocation receives an identifier that no live buffer holds.
    pub fn allocate_buffer(&mut self, capacity: usize) -> (r: Result<BufferId, DriverError>)
        requires
            old(self).wf(),
        ensures
            final(self).wf(),
            match allocate_error(old(self)@, capacity) {
                Some(e) => r == Err::<BufferId, DriverError>(e) && final(self)@ == old(self)@,
                None => r matches Ok(id) && allocated(old(self)@, capacity, id, final(self)@)
                    && final(self)@.buffers.len() == old(self)@.buffers.len() + 1,
            },
            final(self)@.buffers.dom().finite(),
    {
        proof {
            self.lemma_view_finite();
        }
        if capacity == 0 {
            return Err(DriverError::ZeroSizedAllocation);
        }
        let next_id = match self.next_id.checked_add(1) {
            Some(n) => n,
            None => return Err(DriverError::BufferIdExhausted),
        };
        let id = BufferId(self.next_id);
        proof {
            self.lemma_key(id);
        }
        let ghost old_map = self.buffers@;
        self.next_id = next_id;
        let buffer = GpuBuffer { id, storage: vec![0u8; capacity], used: 0 };
        self.buffers.insert(id.0, buffer);
        proof {
            assert(Self::entries_ok(old_map.remove(id.0), self.next_id)) by {
                assert(old_map.remove(id.0) =~= old_map);
                assert forall|j: u32| #[trigger] old_map.contains_key(j) implies j < self.next_id by {
                    assert(old_map[j]@.id == BufferId(j));
                }
            }
            Self::lemma_insert_ok(old_map, self.next_id, id.0, buffer);
            assert(buffer@.storage =~= Seq::new(capacity as nat, |i: int| 0u8));
            assert(self@.buffers =~= old(self)@.buffers.insert(
                id,
                BufferState { id, storage: Seq::new(capacity as nat, |i: int| 0u8), used: 0 },
            ));
        }
        proof {
            self.lemma_view_finite();
        }
        Ok(id)
    }

    /// Replace the valid contents of an existing buffer with `data`.
    ///
    /// A failed oversized write leaves the buffer unchanged.
    pub fn write_buffer(&mut self, id: BufferId, data: &[u8]) -> (r: Result<(), DriverError>)
        requires
            old(self).wf(),
        ensures
            final(self).wf(),
            match write_error(old(self)@, id, data@.len() as usize) {
                Some(e) => r == Err::<(), DriverError>(e) && final(self)@ == old(self)@,
                None => r is Ok && final(self)@ == (DeviceView {
                    buffers: old(self)@.buffers.insert(
                        id,
                        old(self)@.buffers[id].replaced_with(data@),
                    ),
                    ..old(self)@
                }),
            },
    {
        proof {
            self.lemma_key(id);
        }
        let capacity = match self.buffers.get(&id.0) {
            None => return Err(DriverError::UnknownBuffer(id)),
            Some(buffer) => buffer.capacity(),
        };
        let requested = data.len();
        if requested > capacity {
            return Err(DriverError::WriteTooLarge { capacity, requested });
        }
        let ghost old_map = self.buffers@;
        let buffer = self.buffers.remove(&id.0).unwrap();
        proof {
            Self::lemma_remove_ok(old_map, self.next_id, id.0);
        }
        let GpuBuffer { id: buffer_id, mut storage, used: _ } = buffer;
        copy_into(&mut storage, 0, data);
        let buffer = GpuBuffer { id: buffer_id, storage, used: requested };
        self.buffers.insert(id.0, buffer);
        proof {
            Self::lemma_insert_ok(old_map, self.next_id, id.0, buffer);
            assert(self.buffers@ == old_map.insert(id.0, buffer));
            assert(self@.buffers =~= old(self)@.buffers.insert(
                id,
                old(self)@.buffers[id].replaced_with(data@),
            ));
        }
        Ok(())
    }

    /// Borrow the valid contents of an existing buffer.
    pub fn read_buffer(&self, id: BufferId) -> (r: Result<&[u8], DriverError>)
        ensures
            self@.buffers.contains_key(id) ==> (r matches Ok(bytes) && bytes@
                == self@.buffers[id].data()),
            !self@.buffers.contains_key(id) ==> r == Err::<&[u8], DriverError>(
                DriverError::UnknownBuffer(id),
            ),
    {
        proof {
            self.lemma_key(id);
        }
        match self.buffers.get(&id.0) {
            None => Err(DriverError::UnknownBuffer(id)),
            Some(buffer) => Ok(buffer.data()),
        }
    }

    /// Remove a buffer and transfer its ownership to the caller.
    pub fn release_buffer(&mut self, id: BufferId) -> (r: Result<GpuBuffer, DriverError>)
        requires
            old(self).wf(),
        ensures
            final(self).wf(),
            old(self)@.buffers.contains_key(id) ==> (r matches Ok(buffer) && buffer@ == old(self)@.buffers[id] && final(self)@ == (DeviceView {
                buffers: old(self)@.buffers.remove(id),
                ..old(self)@
            }) && final(self)@.buffers.len() == old(self)@.buffers.len() - 1),
            final(self)@.buffers.dom().finite(),
            !old(self)@.buffers.contains_key(id) ==> r == Err::<GpuBuffer, DriverError>(
                DriverError::UnknownBuffer(id),
            ) && final(self)@ == old(self)@,
    {
        proof {
            self.lemma_key(id);
        }
        let ghost old_map = self.buffers@;
        match self.buffers.remove(&id.0) {
            None => {
                proof {
                    assert(self.buffers@ =~= old_map);
                    self.lemma_view_finite();
                }
                Err(DriverError::UnknownBuffer(id))
            },
            Some(buffer) => {
                proof {
                    Self::lemma_remove_ok(old_map, self.next_id, id.0);
                    assert(self.buffers@ == old_map.remove(id.0));
                    assert(self@.buffers =~= old(self)@.buffers.remove(id));
                }
                proof {
                    self.lemma_view_finite();
                }
                Ok(buffer)
            },
        }
    }

    /// The number of live buffers.
    pub fn buffer_count(&self) -> (r: usize)
        ensures
            r == self@.buffers.len(),
    {
        proof {
            self.lemma_view_len();
        }
        self.buffers.len()
    }

    /// The number of bytes that have been written to the buffer.
    pub fn initialized_len(&self, id: BufferId) -> (r: Result<usize, DriverError>)
        ensures
            self@.buffers.contains_key(id) ==> r == Ok::<usize, DriverError>(
                self@.buffers[id].used as usize,
            ),
            !self@.buffers.contains_key(id) ==> r == Err::<usize, DriverError>(
                DriverError::UnknownBuffer(id),
            ),
    {
        proof {
            self.lemma_key(id);
        }
        match self.buffers.get(&id.0) {
            None => Err(DriverError::UnknownBuffer(id)),
            Some(buffer) => Ok(buffer.used),
        }
    }
}

} // verus!
