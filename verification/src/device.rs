//! The plain character device: a fixed-capacity shared buffer and a cursor
//! counting the valid bytes it holds.
//!
//! A write appends behind the valid bytes and advances the cursor; a write
//! that would push the cursor past the capacity is rejected whole. A read
//! drains: it returns every valid byte and resets the cursor to zero.
//!
//! The observable state of a device is the sequence of valid bytes, given by
//! its view. The spec functions [`write_accepted`], [`write_state`],
//! [`read_value`] and [`read_state`] form the abstract state machine that the
//! executable methods are proved to follow, and the lemmas at the end of this
//! module state the laws of that machine.

use vstd::prelude::*;

use crate::errors::DeviceError;
use crate::BUFFER_CAPACITY;

verus! {

/// Whether a write of `d` to a device holding `s` fits within the capacity.
pub open spec fn write_accepted(s: Seq<u8>, d: Seq<u8>) -> bool {
    s.len() + d.len() <= BUFFER_CAPACITY
}

/// The valid bytes after writing `d` to a device holding `s`: the bytes are
/// appended when they fit, and nothing changes when they do not.
pub open spec fn write_state(s: Seq<u8>, d: Seq<u8>) -> Seq<u8> {
    if write_accepted(s, d) {
        s + d
    } else {
        s
    }
}

/// The bytes a read returns from a device holding `s`: all of them.
pub open spec fn read_value(s: Seq<u8>) -> Seq<u8> {
    s
}

/// The valid bytes after a read: none, the device is drained.
pub open spec fn read_state(s: Seq<u8>) -> Seq<u8> {
    Seq::<u8>::empty()
}

/// The shared buffer together with its cursor.
///
/// `storage` is the fixed-size byte array; `offset` is the cursor, the count
/// of valid bytes currently resident. The cursor is not a read position: a
/// write advances it and a read resets it to zero.
pub struct Device {
    storage: Vec<u8>,
    offset: usize,
}

impl View for Device {
    type V = Seq<u8>;

    /// The observable state: the valid prefix of the buffer.
    closed spec fn view(&self) -> Seq<u8> {
        self.storage@.subrange(0, self.offset as int)
    }
}

impl Device {
    /// Well-formedness: the backing array has exactly the fixed capacity and
    /// the cursor never passes it. Every constructor establishes this and
    /// every method preserves it.
    pub closed spec fn wf(&self) -> bool {
        &&& self.storage@.len() == BUFFER_CAPACITY
        &&& self.offset <= BUFFER_CAPACITY
    }

    /// A fresh device: a zeroed buffer holding no valid bytes.
    pub fn new() -> (dev: Device)
        ensures
            dev.wf(),
            dev@ == Seq::<u8>::empty(),
    {
        let mut storage: Vec<u8> = Vec::new();
        while storage.len() < BUFFER_CAPACITY
            invariant
                storage@.len() <= BUFFER_CAPACITY,
            decreases BUFFER_CAPACITY - storage@.len(),
        {
            storage.push(0u8);
        }
        let dev = Device { storage, offset: 0 };
        assert(dev@ =~= Seq::<u8>::empty());
        dev
    }

    /// The cursor: how many valid bytes the device currently holds.
    pub fn offset(&self) -> (n: usize)
        requires
            self.wf(),
        ensures
            n == self@.len(),
    {
        self.offset
    }

    /// Writes `data` behind the valid bytes and advances the cursor.
    ///
    /// Succeeds, returning the full length written, exactly when the new
    /// bytes fit within the remaining capacity; a write that does not fit
    /// fails with `CapacityExceeded` and leaves buffer and cursor unchanged.
    /// Writing zero bytes is a no-op returning 0. Partial writes are not
    /// modeled.
    #[verifier::loop_isolation(false)]
    pub fn write(&mut self, data: &[u8]) -> (r: Result<usize, DeviceError>)
        requires
            old(self).wf(),
        ensures
            final(self).wf(),
            final(self)@ == write_state(old(self)@, data@),
            write_accepted(old(self)@, data@) ==> r == Ok::<usize, DeviceError>(data@.len() as usize),
            !write_accepted(old(self)@, data@) ==> r == Err::<usize, DeviceError>(
                DeviceError::CapacityExceeded,
            ),
    {
        if data.len() > BUFFER_CAPACITY - self.offset {
            return Err(DeviceError::CapacityExceeded);
        }
        let mut i: usize = 0;
        while i < data.len()
            invariant
                i <= data@.len(),
                self.offset == old(self).offset,
                self.storage@.len() == BUFFER_CAPACITY,
                self.storage@.subrange(0, self.offset as int) == old(self)@,
                forall|j: int| 0 <= j < i ==> self.storage@[self.offset + j] == data@[j],
            decreases data@.len() - i,
        {
            self.storage[self.offset + i] = data[i];
            i += 1;
        }
        self.offset = self.offset + data.len();
        assert(self@ =~= old(self)@ + data@);
        Ok(data.len())
    }

    /// Reads the device out: returns every valid byte, in order, and resets
    /// the cursor to zero. Reading a device that holds nothing returns an
    /// empty result, not an error.
    #[verifier::loop_isolation(false)]
    pub fn read(&mut self) -> (r: Vec<u8>)
        requires
            old(self).wf(),
        ensures
            final(self).wf(),
            r@ == read_value(old(self)@),
            final(self)@ == read_state(old(self)@),
    {
        let mut out: Vec<u8> = Vec::new();
        let mut i: usize = 0;
        while i < self.offset
            invariant
                i <= self.offset,
                self == old(self),
                out@ == old(self)@.subrange(0, i as int),
            decreases self.offset - i,
        {
            out.push(self.storage[i]);
            assert(out@ =~= old(self)@.subrange(0, i + 1));
            i += 1;
        }
        assert(out@ =~= old(self)@);
        self.offset = 0;
        assert(self@ =~= Seq::<u8>::empty());
        out
    }
}

/// Writing any `d` that fits the capacity to a freshly drained device and
/// then reading yields exactly `d`.
pub proof fn lemma_fresh_write_read_round_trip(d: Seq<u8>)
    requires
        d.len() <= BUFFER_CAPACITY,
    ensures
        write_accepted(Seq::<u8>::empty(), d),
        read_value(write_state(Seq::<u8>::empty(), d)) == d,
{
    assert(Seq::<u8>::empty() + d =~= d);
}

/// A read drains: after any read the device holds nothing, and a second
/// immediate read returns the empty sequence. Draining is idempotent.
pub proof fn lemma_read_idempotent_drain(s: Seq<u8>)
    ensures
        read_state(s).len() == 0,
        read_value(read_state(s)) == Seq::<u8>::empty(),
        read_state(read_state(s)) == read_state(s),
{
}

/// Writes accumulate at the cursor: two chunks whose combined length fits
/// the capacity, written in order to a freshly drained device, read back as
/// their concatenation.
pub proof fn lemma_two_chunk_write_concatenates(d1: Seq<u8>, d2: Seq<u8>)
    requires
        d1.len() + d2.len() <= BUFFER_CAPACITY,
    ensures
        write_accepted(Seq::<u8>::empty(), d1),
        write_accepted(write_state(Seq::<u8>::empty(), d1), d2),
        read_value(write_state(write_state(Seq::<u8>::empty(), d1), d2)) == d1 + d2,
{
    assert(Seq::<u8>::empty() + d1 =~= d1);
    assert(d1 + d2 =~= (Seq::<u8>::empty() + d1) + d2);
}

/// The valid bytes after a sequence of writes applied one after another.
pub open spec fn apply_writes(s: Seq<u8>, chunks: Seq<Seq<u8>>) -> Seq<u8>
    decreases chunks.len(),
{
    if chunks.len() == 0 {
        s
    } else {
        apply_writes(write_state(s, chunks.first()), chunks.drop_first())
    }
}

/// The concatenation of exactly those chunks that are accepted when the
/// writes run one after another from state `s`.
pub open spec fn accepted_concat(s: Seq<u8>, chunks: Seq<Seq<u8>>) -> Seq<u8>
    decreases chunks.len(),
{
    if chunks.len() == 0 {
        Seq::<u8>::empty()
    } else if write_accepted(s, chunks.first()) {
        chunks.first() + accepted_concat(write_state(s, chunks.first()), chunks.drop_first())
    } else {
        accepted_concat(s, chunks.drop_first())
    }
}

/// Serialized writers lose nothing and overrun nothing: however many writes
/// run one after another, the final state is the starting bytes followed by
/// every accepted chunk in order — so the final cursor equals the starting
/// count plus the sum of the accepted lengths — and never exceeds the
/// capacity.
pub proof fn lemma_serialized_writes(s: Seq<u8>, chunks: Seq<Seq<u8>>)
    requires
        s.len() <= BUFFER_CAPACITY,
    ensures
        apply_writes(s, chunks) == s + accepted_concat(s, chunks),
        apply_writes(s, chunks).len() == s.len() + accepted_concat(s, chunks).len(),
        apply_writes(s, chunks).len() <= BUFFER_CAPACITY,
    decreases chunks.len(),
{
    if chunks.len() == 0 {
        assert(s + Seq::<u8>::empty() =~= s);
    } else {
        let d = chunks.first();
        let s1 = write_state(s, d);
        lemma_serialized_writes(s1, chunks.drop_first());
        if write_accepted(s, d) {
            assert((s + d) + accepted_concat(s1, chunks.drop_first()) =~= s + (d
                + accepted_concat(s1, chunks.drop_first())));
        }
    }
}

} // verus!
