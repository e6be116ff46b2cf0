//! The `Buffer` type: a contiguous byte buffer partitioned by two cursors.
//!
//! The storage of capacity `capacity()` is split into three regions:
//! - `[0, read_index())`: prependable space, reclaimed from past consumption;
//! - `[read_index(), write_index())`: readable data, in FIFO order;
//! - `[write_index(), capacity())`: writable space at the tail.
//!
//! Every operation preserves the invariant
//! `0 <= read_index() <= write_index() <= capacity()`, and on failure leaves
//! the buffer unchanged.

use vstd::prelude::*;

verus! {

/// Errors reported by the fallible buffer operations.
#[derive(Clone, Copy, Debug, PartialEq, Eq, Structural)]
pub enum BufferError {
    /// A consume request exceeded the readable bytes.
    OutOfRange,
    /// A prepend request exceeded the prependable bytes.
    InsufficientPrependSpace,
}

/// A byte staging buffer: one owned storage array and two cursors.
pub struct Buffer {
    buffer: Vec<u8>,
    read_pos: usize,
    write_pos: usize,
}

impl View for Buffer {
    type V = Seq<u8>;

    /// The abstract value of a buffer is its readable content,
    /// the bytes in `[read_index(), write_index())` in FIFO order.
    closed spec fn view(&self) -> Seq<u8> {
        self.buffer@.subrange(self.read_pos as int, self.write_pos as int)
    }
}

impl Buffer {
    /// Position of the first unread byte.
    pub closed spec fn read_index(&self) -> int {
        self.read_pos as int
    }

    /// Position one past the last written byte.
    pub closed spec fn write_index(&self) -> int {
        self.write_pos as int
    }

    /// Total size of the backing storage.
    pub closed spec fn capacity(&self) -> int {
        self.buffer@.len() as int
    }

    /// Invariant: the cursors stay ordered within the storage, and the
    /// readable content is exactly the bytes between them.
    pub open spec fn inv(&self) -> bool {
        &&& 0 <= self.read_index() <= self.write_index() <= self.capacity()
        &&& self@.len() == self.write_index() - self.read_index()
    }

    /// Size of the readable region `[read_index(), write_index())`.
    pub open spec fn spec_readable_bytes(&self) -> int {
        self.write_index() - self.read_index()
    }

    /// Size of the writable region `[write_index(), capacity())`.
    pub open spec fn spec_writable_bytes(&self) -> int {
        self.capacity() - self.write_index()
    }

    /// Size of the prependable region `[0, read_index())`.
    pub open spec fn spec_prependable_bytes(&self) -> int {
        self.read_index()
    }

    /// Creates a buffer with storage of exactly `bufsize` bytes and both
    /// cursors at zero, so nothing is readable and nothing is prependable.
    pub fn new(bufsize: usize) -> (r: Buffer)
        ensures
            r.inv(),
            r@ == Seq::<u8>::empty(),
            r.read_index() == 0,
            r.write_index() == 0,
            r.capacity() == bufsize,
    {
        let mut storage: Vec<u8> = Vec::new();
        storage.resize(bufsize, 0u8);
        let r = Buffer { buffer: storage, read_pos: 0, write_pos: 0 };
        proof {
            assert(r@ =~= Seq::<u8>::empty());
        }
        r
    }

    /// Number of bytes available to consume.
    pub fn readable_bytes(&self) -> (r: usize)
        requires
            self.inv(),
        ensures
            r == self.spec_readable_bytes(),
            r == self@.len(),
    {
        self.write_pos - self.read_pos
    }

    /// Number of bytes of untouched capacity after the write cursor.
    pub fn writable_bytes(&self) -> (r: usize)
        requires
            self.inv(),
        ensures
            r == self.spec_writable_bytes(),
    {
        self.buffer.len() - self.write_pos
    }

    /// Number of already-consumed bytes before the read cursor, available
    /// to be reclaimed.
    pub fn prependable_bytes(&self) -> (r: usize)
        requires
            self.inv(),
        ensures
            r == self.spec_prependable_bytes(),
    {
        self.read_pos
    }

    /// Consumes the first `n` readable bytes by advancing the read cursor.
    ///
    /// Fails with `OutOfRange` when `n` exceeds the readable bytes, in which
    /// case the buffer is left unchanged.
    pub fn consume(&mut self, n: usize) -> (r: Result<(), BufferError>)
        requires
            old(self).inv(),
        ensures
            final(self).inv(),
            n <= old(self)@.len() ==> {
                &&& r == Ok::<(), BufferError>(())
                &&& final(self)@ == old(self)@.skip(n as int)
                &&& final(self).read_index() == old(self).read_index() + n
                &&& final(self).write_index() == old(self).write_index()
                &&& final(self).capacity() == old(self).capacity()
            },
            n > old(self)@.len() ==> {
                &&& r == Err::<(), BufferError>(BufferError::OutOfRange)
                &&& *final(self) == *old(self)
            },
    {
        if n > self.write_pos - self.read_pos {
            return Err(BufferError::OutOfRange);
        }
        self.read_pos = self.read_pos + n;
        proof {
            assert(self@ =~= old(self)@.skip(n as int));
        }
        Ok(())
    }

    /// Copies `bytes` into the writable region and advances the write cursor.
    fn copy_in(&mut self, bytes: &[u8])
        requires
            old(self).inv(),
            old(self).spec_writable_bytes() >= bytes@.len(),
        ensures
            final(self).inv(),
            final(self)@ == old(self)@ + bytes@,
            final(self).read_index() == old(self).read_index(),
            final(self).write_index() == old(self).write_index() + bytes@.len(),
            final(self).capacity() == old(self).capacity(),
    {
        let len = bytes.len();
        let cap = self.buffer.len();
        let mut i: usize = 0;
        while i < len
            invariant
                i <= len,
                bytes@.len() == len,
                self.read_pos == old(self).read_pos,
                self.write_pos == old(self).write_pos,
                self.buffer@.len() == old(self).buffer@.len(),
                self.buffer@.len() == cap,
                self.write_pos + len <= cap,
                forall|j: int| 0 <= j < self.write_pos ==> self.buffer@[j] == old(self).buffer@[j],
                forall|j: int| 0 <= j < i ==> self.buffer@[self.write_pos + j] == bytes@[j],
            decreases len - i,
        {
            let b = *vstd::slice::slice_index_get(bytes, i);
            self.buffer.set(self.write_pos + i, b);
            i = i + 1;
        }
        self.write_pos = self.write_pos + len;
        proof {
            assert(self@ =~= old(self)@ + bytes@);
        }
    }

    /// Shifts the readable region down to offset zero, reclaiming the
    /// prependable space without reallocating.
    fn compact(&mut self)
        requires
            old(self).inv(),
        ensures
            final(self).inv(),
            final(self)@ == old(self)@,
            final(self).read_index() == 0,
            final(self).write_index() == old(self)@.len(),
            final(self).capacity() == old(self).capacity(),
    {
        let n = self.write_pos - self.read_pos;
        let mut i: usize = 0;
        while i < n
            invariant
                i <= n,
                self.read_pos == old(self).read_pos,
                self.write_pos == old(self).write_pos,
                self.buffer@.len() == old(self).buffer@.len(),
                n == self.write_pos - self.read_pos,
                self.write_pos <= self.buffer@.len(),
                forall|j: int| 0 <= j < i ==> self.buffer@[j] == old(self).buffer@[self.read_pos + j],
                forall|j: int| i <= j < self.buffer@.len() ==> self.buffer@[j] == old(self).buffer@[j],
            decreases n - i,
        {
            let b = self.buffer[self.read_pos + i];
            self.buffer.set(i, b);
            i = i + 1;
        }
        self.read_pos = 0;
        self.write_pos = n;
        proof {
            assert(self@ =~= old(self)@);
        }
    }

    /// Capacity chosen when the storage must grow to hold `needed` bytes:
    /// double the current capacity where that suffices and fits in `usize`,
    /// else exactly `needed`.
    pub open spec fn grown_capacity(cap: int, needed: int) -> int {
        if needed <= 2 * cap && 2 * cap <= usize::MAX {
            2 * cap
        } else {
            needed
        }
    }

    /// Compacts the readable region to offset zero and grows the storage to
    /// `grown_capacity` bytes, preserving the readable content.
    fn grow(&mut self, needed: usize)
        requires
            old(self).inv(),
            needed > old(self).capacity(),
        ensures
            final(self).inv(),
            final(self)@ == old(self)@,
            final(self).read_index() == 0,
            final(self).write_index() == old(self)@.len(),
            final(self).capacity() == Self::grown_capacity(old(self).capacity(), needed as int),
    {
        let cap = self.buffer.len();
        let new_cap: usize = if cap <= usize::MAX / 2 && needed <= cap * 2 {
            cap * 2
        } else {
            needed
        };
        self.compact();
        let ghost pre = *self;
        self.buffer.resize(new_cap, 0u8);
        proof {
            assert(self.buffer@.subrange(0, pre.buffer@.len() as int) == pre.buffer@);
            assert(self@ =~= pre@);
        }
    }

    /// Appends `bytes` after the readable data and advances the write cursor.
    ///
    /// Policy: write directly into the tail space where it suffices; else
    /// compact the readable region to offset zero where the reclaimed space
    /// then suffices; else grow the storage to `grown_capacity` bytes. The
    /// readable content always becomes the old content followed by `bytes`.
    pub fn append(&mut self, bytes: &[u8])
        requires
            old(self).inv(),
            old(self)@.len() + bytes@.len() <= usize::MAX,
        ensures
            final(self).inv(),
            final(self)@ == old(self)@ + bytes@,
            old(self).spec_writable_bytes() >= bytes@.len() ==> {
                &&& final(self).read_index() == old(self).read_index()
                &&& final(self).write_index() == old(self).write_index() + bytes@.len()
                &&& final(self).capacity() == old(self).capacity()
            },
            old(self).spec_writable_bytes() < bytes@.len()
                && old(self).spec_prependable_bytes() + old(self).spec_writable_bytes()
                    >= bytes@.len() ==> {
                &&& final(self).read_index() == 0
                &&& final(self).write_index() == old(self)@.len() + bytes@.len()
                &&& final(self).capacity() == old(self).capacity()
            },
            old(self).spec_prependable_bytes() + old(self).spec_writable_bytes()
                < bytes@.len() ==> {
                &&& final(self).read_index() == 0
                &&& final(self).write_index() == old(self)@.len() + bytes@.len()
                &&& final(self).capacity() == Self::grown_capacity(
                    old(self).capacity(),
                    old(self)@.len() + bytes@.len() as int,
                )
            },
    {
        let len = bytes.len();
        if self.buffer.len() - self.write_pos >= len {
            self.copy_in(bytes);
        } else if self.read_pos + (self.buffer.len() - self.write_pos) >= len {
            self.compact();
            self.copy_in(bytes);
        } else {
            let needed = (self.write_pos - self.read_pos) + len;
            self.grow(needed);
            self.copy_in(bytes);
        }
    }

    /// Writes `bytes` into the prependable space directly before the
    /// readable data and moves the read cursor back, so the readable content
    /// becomes `bytes` followed by the old content.
    ///
    /// Fails with `InsufficientPrependSpace` when `bytes` exceeds the
    /// prependable bytes (growth is never attempted for a prepend), in which
    /// case the buffer is left unchanged.
    pub fn prepend(&mut self, bytes: &[u8]) -> (r: Result<(), BufferError>)
        requires
            old(self).inv(),
        ensures
            final(self).inv(),
            bytes@.len() <= old(self).spec_prependable_bytes() ==> {
                &&& r == Ok::<(), BufferError>(())
                &&& final(self)@ == bytes@ + old(self)@
                &&& final(self).read_index() == old(self).read_index() - bytes@.len()
                &&& final(self).write_index() == old(self).write_index()
                &&& final(self).capacity() == old(self).capacity()
            },
            bytes@.len() > old(self).spec_prependable_bytes() ==> {
                &&& r == Err::<(), BufferError>(BufferError::InsufficientPrependSpace)
                &&& *final(self) == *old(self)
            },
    {
        let len = bytes.len();
        if len > self.read_pos {
            return Err(BufferError::InsufficientPrependSpace);
        }
        let start = self.read_pos - len;
        let mut i: usize = 0;
        while i < len
            invariant
                i <= len,
                bytes@.len() == len,
                self.read_pos == old(self).read_pos,
                self.write_pos == old(self).write_pos,
                self.buffer@.len() == old(self).buffer@.len(),
                start == self.read_pos - len,
                self.read_pos <= self.write_pos <= self.buffer@.len(),
                forall|j: int| 0 <= j < i ==> self.buffer@[start + j] == bytes@[j],
                forall|j: int| start + i <= j < self.buffer@.len()
                    ==> self.buffer@[j] == old(self).buffer@[j],
            decreases len - i,
        {
            let b = *vstd::slice::slice_index_get(bytes, i);
            self.buffer.set(start + i, b);
            i = i + 1;
        }
        self.read_pos = start;
        proof {
            assert(self@ =~= bytes@ + old(self)@);
        }
        Ok(())
    }

    /// Borrowed view of the readable region `[read_index(), write_index())`.
    pub fn peek(&self) -> (r: &[u8])
        requires
            self.inv(),
        ensures
            r@ == self@,
    {
        vstd::slice::slice_subrange(self.buffer.as_slice(), self.read_pos, self.write_pos)
    }
}

/// Law: the three regions partition the storage — the readable, writable and
/// prependable byte counts always sum to the capacity, so no byte is
/// double-counted or lost.
pub proof fn lemma_regions_partition(b: &Buffer)
    requires
        b.inv(),
    ensures
        b.spec_readable_bytes() + b.spec_writable_bytes() + b.spec_prependable_bytes()
            == b.capacity(),
{
}

/// Law: round trip through append and consume. Appending `b` to readable
/// content `s` leaves `s` as the prefix, so a peek right after the append
/// shows `s + b`; consuming the `s.len()` old bytes then leaves exactly `b`
/// readable.
pub proof fn lemma_append_consume_round_trip(s: Seq<u8>, b: Seq<u8>)
    ensures
        (s + b).subrange(0, s.len() as int) == s,
        (s + b).skip(s.len() as int) == b,
{
    assert((s + b).subrange(0, s.len() as int) =~= s);
    assert((s + b).skip(s.len() as int) =~= b);
}

} // verus!
