//! A byte queue in mapped memory.
//!
//! The mapping starts with room for two machine words and goes on with the ring of
//! `capacity` bytes. The bytes that wait to be read lie in the ring from `tail` up to `head`, and go
//! on at the start of the ring where they reach its end. Their number is kept beside the two places,
//! which are the same both when nothing waits and when no byte is free.
use crate::error::ZeroCopyError;
use crate::mapping::{copy_into, mmap_mut_as_mut_slice, mmap_mut_as_slice, mmap_mut_bytes};
use crate::mapping::{mmap_mut_len, patched};
use memmap2::MmapMut;
use std::path::PathBuf;
use vstd::prelude::*;
use vstd::slice::slice_subrange;

verus! {

broadcast use vstd::layout::layout_of_primitives;

/// The number of bytes in the mapping before the ring.
pub open spec fn metadata_len() -> nat {
    vstd::layout::size_of::<usize>() * 2
}

/// The place in a ring of `capacity` bytes that lies `n` places after `at`.
pub open spec fn slot(at: int, n: int, capacity: int) -> int {
    if at + n < capacity {
        at + n
    } else {
        at + n - capacity
    }
}

/// How far one must go from `from` to reach `to`, in a ring of `capacity` bytes.
pub open spec fn distance(from: int, to: int, capacity: int) -> int {
    if to >= from {
        to - from
    } else {
        capacity - from + to
    }
}

/// The `n` bytes of `ring` from `tail` on, around its end.
pub open spec fn pending(ring: Seq<u8>, tail: int, n: int) -> Seq<u8> {
    Seq::new(n as nat, |i: int| ring[slot(tail, i, ring.len() as int)])
}

/// `ring` with its bytes from `head` on, around its end, replaced by `data`.
pub open spec fn ring_patched(ring: Seq<u8>, head: int, data: Seq<u8>) -> Seq<u8> {
    Seq::new(
        ring.len(),
        |j: int|
            {
                let k = distance(head, j, ring.len() as int);
                if k < data.len() {
                    data[k]
                } else {
                    ring[j]
                }
            },
    )
}

/// Memory-mapped circular buffer for streaming data.
pub struct MmapCircularBuffer {
    mmap: MmapMut,
    head: usize,
    tail: usize,
    waiting: usize,
    capacity: usize,
    path: PathBuf,
}

impl MmapCircularBuffer {
    /// The mapped bytes, those before the ring included.
    pub closed spec fn bytes(&self) -> Seq<u8> {
        mmap_mut_bytes(self.mmap)
    }

    /// The place in the ring for the next byte that is written.
    pub closed spec fn head(&self) -> int {
        self.head as int
    }

    /// The place in the ring of the next byte that is read.
    pub closed spec fn tail(&self) -> int {
        self.tail as int
    }

    /// The number of bytes that wait to be read.
    pub closed spec fn waiting(&self) -> int {
        self.waiting as int
    }

    /// The number of bytes in the ring.
    pub closed spec fn capacity(&self) -> int {
        self.capacity as int
    }

    /// The path of the mapped file.
    pub closed spec fn file_path(&self) -> PathBuf {
        self.path
    }

    /// The bytes before the ring.
    pub open spec fn metadata(&self) -> Seq<u8> {
        self.bytes().take(metadata_len() as int)
    }

    /// The bytes of the ring.
    pub open spec fn ring(&self) -> Seq<u8> {
        self.bytes().skip(metadata_len() as int)
    }

    /// The mapping has room for the ring, both places lie in it, and no more bytes wait than it has.
    pub open spec fn well_formed(&self) -> bool {
        &&& self.bytes().len() == metadata_len() + self.capacity()
        &&& self.bytes().len() <= usize::MAX
        &&& 0 <= self.tail() < self.capacity() || self.tail() == self.capacity() == 0
        &&& 0 <= self.waiting() <= self.capacity()
        &&& self.head() == slot(self.tail(), self.waiting(), self.capacity())
    }

    /// The bytes that wait to be read, the oldest first.
    pub open spec fn view(&self) -> Seq<u8> {
        pending(self.ring(), self.tail(), self.waiting())
    }

    /// `after` is this buffer after a write of `data` for which there was room.
    pub open spec fn written(&self, data: Seq<u8>, after: Self) -> bool {
        &&& after.well_formed()
        &&& after.capacity() == self.capacity()
        &&& after.file_path() == self.file_path()
        &&& after.tail() == self.tail()
        &&& after.head() == slot(self.head(), data.len() as int, self.capacity())
        &&& after.metadata() == self.metadata()
        &&& after.ring() == ring_patched(self.ring(), self.head(), data)
        &&& after@ == self@ + data
    }

    /// `after` is this buffer after a read of `n` bytes.
    pub open spec fn consumed(&self, n: nat, after: Self) -> bool {
        &&& after.well_formed()
        &&& after.capacity() == self.capacity()
        &&& after.file_path() == self.file_path()
        &&& after.bytes() == self.bytes()
        &&& after.head() == self.head()
        &&& after.tail() == slot(self.tail(), n as int, self.capacity())
        &&& after@ == self@.skip(n as int)
    }

    /// The number of bytes that a read into a buffer of `len` bytes gives.
    pub open spec fn readable(&self, len: nat) -> nat {
        if len <= self@.len() {
            len
        } else {
            self@.len()
        }
    }

    /// The size that the mapping of a buffer of `capacity` bytes must have.
    pub fn total_size(capacity: usize) -> (r: usize)
        requires
            capacity + metadata_len() <= usize::MAX,
        ensures
            r == capacity + metadata_len(),
    {
        capacity + std::mem::size_of::<usize>() * 2
    }

    /// An empty buffer of `capacity` bytes in a mapping of the right size.
    pub fn create(mmap: MmapMut, path: PathBuf, capacity: usize) -> (r: Self)
        requires
            mmap_mut_bytes(mmap).len() == capacity + metadata_len() <= usize::MAX,
        ensures
            r.well_formed(),
            r.bytes() == mmap_mut_bytes(mmap),
            r.capacity() == capacity,
            r.head() == 0,
            r.tail() == 0,
            r.file_path() == path,
            r@ == Seq::<u8>::empty(),
    {
        MmapCircularBuffer { mmap, head: 0, tail: 0, waiting: 0, capacity, path }
    }

    /// An empty buffer of `capacity` bytes in a mapping, if that has the right size.
    pub fn create_in(mmap: MmapMut, path: PathBuf, capacity: usize) -> (r: Option<Self>)
        ensures
            r is Some <==> mmap_mut_bytes(mmap).len() == capacity + metadata_len(),
            r matches Some(b) ==> {
                &&& b.well_formed()
                &&& b.bytes() == mmap_mut_bytes(mmap)
                &&& b.capacity() == capacity
                &&& b.head() == 0
                &&& b.tail() == 0
                &&& b.file_path() == path
                &&& b@ == Seq::<u8>::empty()
            },
    {
        let metadata: usize = std::mem::size_of::<usize>() * 2;
        let size: usize = mmap_mut_len(&mmap);
        if size < metadata || size - metadata != capacity {
            return None;
        }
        Some(Self::create(mmap, path, capacity))
    }

    /// Writes all of `data` behind the bytes that wait to be read, or nothing if it does not fit.
    pub fn write(&mut self, data: &[u8]) -> (r: Result<usize, ZeroCopyError>)
        requires
            old(self).well_formed(),
            old(self).capacity() > 0 || data@.len() > 0,
        ensures
            r is Ok <==> old(self)@.len() + data@.len() <= old(self).capacity(),
            match r {
                Ok(n) => n == data@.len() && old(self).written(data@, *final(self)),
                Err(e) => {
                    &&& e matches ZeroCopyError::Buffer(m)
                    &&& m@ == "Insufficient space in circular buffer"@
                    &&& *final(self) == *old(self)
                },
            },
    {
        if self.capacity - self.waiting < data.len() {
            return Err(
                ZeroCopyError::Buffer(String::from_str("Insufficient space in circular buffer")),
            );
        }
        let metadata_offset: usize = std::mem::size_of::<usize>() * 2;
        let write_size: usize = data.len();
        if write_size <= self.capacity - self.head {
            copy_into(mmap_mut_as_mut_slice(&mut self.mmap), metadata_offset + self.head, data);
        } else {
            let first_part: usize = self.capacity - self.head;
            copy_into(
                mmap_mut_as_mut_slice(&mut self.mmap),
                metadata_offset + self.head,
                slice_subrange(data, 0, first_part),
            );
            copy_into(
                mmap_mut_as_mut_slice(&mut self.mmap),
                metadata_offset,
                slice_subrange(data, first_part, write_size),
            );
        }
        self.head = if write_size < self.capacity - self.head {
            self.head + write_size
        } else {
            write_size - (self.capacity - self.head)
        };
        self.waiting = self.waiting + write_size;
        proof {
            assert(self.metadata() =~= old(self).metadata());
            assert(self.ring() =~= ring_patched(old(self).ring(), old(self).head(), data@));
            assert(self@ =~= old(self)@ + data@);
        }
        Ok(write_size)
    }

    /// Moves the oldest waiting bytes to the front of `buffer`, as many as there are and fit.
    pub fn read(&mut self, buffer: &mut [u8]) -> (r: Result<usize, ZeroCopyError>)
        requires
            old(self).well_formed(),
        ensures
            r matches Ok(n) && {
                &&& n == old(self).readable(old(buffer)@.len())
                &&& final(buffer)@ == patched(old(buffer)@, 0, old(self)@.take(n as int))
                &&& old(self).consumed(n as nat, *final(self))
            },
    {
        let available: usize = self.available();
        if available == 0 {
            assert(buffer@ =~= patched(buffer@, 0, self@.take(0)));
            assert(self@ =~= self@.skip(0));
            return Ok(0);
        }
        let metadata_offset: usize = std::mem::size_of::<usize>() * 2;
        let wanted: usize = buffer.len();
        let read_size: usize = if wanted <= available {
            wanted
        } else {
            available
        };
        let ghost before = buffer@;
        let bytes = mmap_mut_as_slice(&self.mmap);
        if read_size <= self.capacity - self.tail {
            copy_into(
                buffer,
                0,
                slice_subrange(
                    bytes,
                    metadata_offset + self.tail,
                    metadata_offset + self.tail + read_size,
                ),
            );
        } else {
            let first_part: usize = self.capacity - self.tail;
            copy_into(
                buffer,
                0,
                slice_subrange(bytes, metadata_offset + self.tail, metadata_offset + self.capacity),
            );
            copy_into(
                buffer,
                first_part,
                slice_subrange(bytes, metadata_offset, metadata_offset + read_size - first_part),
            );
        }
        self.tail = if read_size < self.capacity - self.tail {
            self.tail + read_size
        } else {
            read_size - (self.capacity - self.tail)
        };
        self.waiting = self.waiting - read_size;
        proof {
            assert(buffer@ =~= patched(before, 0, old(self)@.take(read_size as int)));
            assert(self@ =~= old(self)@.skip(read_size as int));
        }
        Ok(read_size)
    }

    /// The amount of data available to read.
    pub fn available(&self) -> (r: usize)
        requires
            self.well_formed(),
        ensures
            r == self@.len(),
    {
        self.waiting
    }

    /// The amount of space available for writing.
    pub fn space_available(&self) -> (r: usize)
        requires
            self.well_formed(),
        ensures
            r == self.capacity() - self@.len(),
    {
        self.capacity - self.available()
    }
}

/// What is written is read back: a read that follows it gives, as far as its buffer
/// reaches, the bytes that waited before and then the written ones, and the rest goes on waiting.
pub proof fn law_write_then_read(
    before: MmapCircularBuffer,
    data: Seq<u8>,
    written: MmapCircularBuffer,
    buffer: Seq<u8>,
    read: MmapCircularBuffer,
)
    requires
        before.well_formed(),
        before@.len() + data.len() <= before.capacity(),
        before.written(data, written),
        written.consumed(written.readable(buffer.len()), read),
    ensures
        ({
            let n = written.readable(buffer.len()) as int;
            &&& n == if buffer.len() <= before@.len() + data.len() {
                buffer.len()
            } else {
                before@.len() + data.len()
            }
            &&& patched(buffer, 0, written@.take(n)).take(n) == (before@ + data).take(n)
            &&& read@ == (before@ + data).skip(n)
        }),
{
    let n = written.readable(buffer.len()) as int;
    assert(patched(buffer, 0, written@.take(n)).take(n) =~= (before@ + data).take(n));
}

/// No more bytes wait to be read than the ring has places.
pub proof fn law_waiting_within_capacity(b: MmapCircularBuffer)
    requires
        b.well_formed(),
    ensures
        b@.len() <= b.capacity(),
{
}

/// A step in the life of a buffer: the bytes of a write, or the bytes that a read gave.
pub ghost enum Step {
    Write(Seq<u8>),
    Read(Seq<u8>),
}

/// `after` is the buffer `before` after `step`.
pub open spec fn step_of(before: MmapCircularBuffer, step: Step, after: MmapCircularBuffer) -> bool {
    match step {
        Step::Write(data) => {
            &&& before@.len() + data.len() <= before.capacity()
            &&& before.written(data, after)
        },
        Step::Read(out) => {
            &&& out.len() <= before@.len()
            &&& out == before@.take(out.len() as int)
            &&& before.consumed(out.len(), after)
        },
    }
}

/// All bytes that the steps wrote.
pub open spec fn all_written(steps: Seq<Step>) -> Seq<u8>
    decreases steps.len(),
{
    if steps.len() == 0 {
        Seq::empty()
    } else {
        match steps.last() {
            Step::Write(data) => all_written(steps.drop_last()) + data,
            Step::Read(_) => all_written(steps.drop_last()),
        }
    }
}

/// All bytes that the steps read.
pub open spec fn all_read(steps: Seq<Step>) -> Seq<u8>
    decreases steps.len(),
{
    if steps.len() == 0 {
        Seq::empty()
    } else {
        match steps.last() {
            Step::Write(_) => all_read(steps.drop_last()),
            Step::Read(out) => all_read(steps.drop_last()) + out,
        }
    }
}

/// `after` is what waits after `step`, if `before` waited before it.
spec fn queue_step(before: Seq<u8>, step: Step, after: Seq<u8>) -> bool {
    match step {
        Step::Write(data) => after == before + data,
        Step::Read(out) => before == out + after,
    }
}

proof fn lemma_queue_step(before: MmapCircularBuffer, step: Step, after: MmapCircularBuffer)
    requires
        step_of(before, step, after),
    ensures
        queue_step(before@, step, after@),
{
    match step {
        Step::Write(data) => {},
        Step::Read(out) => {
            assert(before@ =~= out + after@);
        },
    }
}

proof fn lemma_queue(waiting: Seq<Seq<u8>>, steps: Seq<Step>)
    requires
        waiting.len() == steps.len() + 1,
        forall|i: int|
            #![trigger steps[i]]
            0 <= i < steps.len() ==> queue_step(waiting[i], steps[i], waiting[i + 1]),
    ensures
        all_read(steps) + waiting.last() == waiting[0] + all_written(steps),
    decreases steps.len(),
{
    if steps.len() == 0 {
        assert(all_read(steps) + waiting.last() =~= waiting[0] + all_written(steps));
    } else {
        let earlier = steps.drop_last();
        let n = earlier.len() as int;
        assert forall|i: int| #![trigger earlier[i]] 0 <= i < earlier.len() implies queue_step(
            waiting.drop_last()[i],
            earlier[i],
            waiting.drop_last()[i + 1],
        ) by {
            assert(queue_step(waiting[i], steps[i], waiting[i + 1]));
        }
        lemma_queue(waiting.drop_last(), earlier);
        assert(queue_step(waiting[n], steps[n], waiting[n + 1]));
        match steps.last() {
            Step::Write(data) => {
                assert(all_read(steps) + waiting.last() =~= (all_read(earlier) + waiting[n]) + data);
                assert(waiting[0] + all_written(steps) =~= (waiting[0] + all_written(earlier)) + data);
            },
            Step::Read(out) => {
                assert(all_read(steps) + waiting.last() =~= all_read(earlier) + (out
                    + waiting.last()));
            },
        }
    }
}

/// The buffer is a queue: over any run of accepted writes and of reads, what was read and what still
/// waits is what waited at first and what was written, in order.
pub proof fn law_first_in_first_out(states: Seq<MmapCircularBuffer>, steps: Seq<Step>)
    requires
        states.len() == steps.len() + 1,
        states[0].well_formed(),
        forall|i: int|
            #![trigger steps[i]]
            0 <= i < steps.len() ==> step_of(states[i], steps[i], states[i + 1]),
    ensures
        all_read(steps) + states.last()@ == states[0]@ + all_written(steps),
{
    let waiting = Seq::new(states.len(), |i: int| states[i]@);
    assert forall|i: int| #![trigger steps[i]] 0 <= i < steps.len() implies queue_step(
        waiting[i],
        steps[i],
        waiting[i + 1],
    ) by {
        lemma_queue_step(states[i], steps[i], states[i + 1]);
    }
    lemma_queue(waiting, steps);
}

/// Places in the ring are counted around its end.
pub proof fn law_places_go_around(at: int, n: int, to: int, capacity: int)
    requires
        0 <= at < capacity,
        0 <= n <= capacity,
        0 <= to < capacity,
    ensures
        slot(at, n, capacity) == (at + n) % capacity,
        0 <= distance(at, to, capacity) < capacity,
        slot(at, distance(at, to, capacity), capacity) == to,
{
    assert((at + n) % capacity == if at + n < capacity {
        at + n
    } else {
        at + n - capacity
    }) by (nonlinear_arith)
        requires
            0 <= at < capacity,
            0 <= n <= capacity,
    ;
}

/// A read gives as many bytes as its buffer takes, or all that wait if they are fewer.
pub proof fn law_read_takes_what_fits(b: MmapCircularBuffer, len: nat)
    ensures
        b.readable(len) <= len,
        b.readable(len) <= b@.len(),
        b.readable(len) == len || b.readable(len) == b@.len(),
{
}

/// The bytes that wait lie in the ring one behind the other, from the place of the next read on and around
/// the end of the ring.
pub proof fn law_waiting_bytes_lie_in_the_ring(b: MmapCircularBuffer, i: int)
    requires
        b.well_formed(),
        0 <= i < b@.len(),
    ensures
        b@[i] == b.bytes()[metadata_len() as int + (b.tail() + i) % b.capacity()],
        b@.len() == b.waiting(),
{
    law_places_go_around(b.tail(), i, 0, b.capacity());
}

/// A write puts its bytes into the ring one behind the other, from the place of the next write on and around
/// the end of the ring, and changes no other byte of the mapping.
pub proof fn law_write_fills_the_ring(
    before: MmapCircularBuffer,
    data: Seq<u8>,
    after: MmapCircularBuffer,
    i: int,
)
    requires
        before.well_formed(),
        before@.len() + data.len() <= before.capacity(),
        before.written(data, after),
    ensures
        0 <= i < data.len() ==> after.bytes()[metadata_len() as int + (before.head() + i)
            % before.capacity()] == data[i],
        data.len() <= i < before.capacity() ==> after.bytes()[metadata_len() as int + (before.head()
            + i) % before.capacity()] == before.bytes()[metadata_len() as int + (before.head() + i)
            % before.capacity()],
        0 <= i < metadata_len() ==> after.bytes()[i] == before.bytes()[i],
        after.bytes().len() == before.bytes().len(),
        after@.len() == before@.len() + data.len(),
{
    if 0 <= i < before.capacity() {
        let j = slot(before.head(), i, before.capacity());
        law_places_go_around(before.head(), i, j, before.capacity());
        assert(after.ring()[j] == ring_patched(before.ring(), before.head(), data)[j]);
        assert(distance(before.head(), j, before.capacity()) == i);
    }
    if 0 <= i < metadata_len() {
        assert(after.metadata()[i] == before.metadata()[i]);
    }
}

/// The room before the ring is that of two machine words.
pub proof fn law_room_before_the_ring()
    ensures
        metadata_len() * 4 == usize::BITS,
{
}

} // verus!
