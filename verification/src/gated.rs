//! The gated character device: the shared buffer of the plain device plus a
//! completion gate, giving a single-producer/single-consumer handoff in
//! which a reader waits until a writer has produced data.
//!
//! A write stores the payload's length as a one-byte prefix at the start
//! of the buffer, the payload behind it, and signals the completion gate; a
//! read consumes the signal, then takes exactly as many payload bytes as
//! the prefix names.
//! The one-byte prefix caps a message at [`MAX_MESSAGE_LEN`] bytes; a longer
//! write is rejected whole rather than truncated, so the prefix always names
//! the payload exactly.
//!
//! The observable state of a gated device is a [`GatedState`]: the stored
//! message and the signal. The spec functions [`gated_write_accepted`],
//! [`gated_write_state`], [`gated_read_value`] and [`gated_read_state`]
//! form the abstract handoff machine the executable methods are proved to
//! follow.

use vstd::prelude::*;

use crate::errors::DeviceError;
use crate::gate::CompletionGate;
use crate::BUFFER_CAPACITY;

verus! {

/// The longest message the one-byte length prefix can name.
pub const MAX_MESSAGE_LEN: usize = 255;

/// The observable state of a gated device: the message currently stored and
/// whether the completion gate holds an unconsumed signal.
#[verifier::ext_equal]
pub struct GatedState {
    pub message: Seq<u8>,
    pub signaled: bool,
}

/// Whether a write of `d` fits the one-byte length prefix.
pub open spec fn gated_write_accepted(d: Seq<u8>) -> bool {
    d.len() <= MAX_MESSAGE_LEN
}

/// The state after writing `d`: an accepted write replaces the message whole
/// and signals the completion gate; a rejected write changes nothing.
pub open spec fn gated_write_state(s: GatedState, d: Seq<u8>) -> GatedState {
    if gated_write_accepted(d) {
        GatedState { message: d, signaled: true }
    } else {
        s
    }
}

/// The bytes a read returns: the stored message, its length taken from the
/// prefix.
pub open spec fn gated_read_value(s: GatedState) -> Seq<u8> {
    s.message
}

/// The state after a read: the signal is consumed, the message stays in the
/// buffer.
pub open spec fn gated_read_state(s: GatedState) -> GatedState {
    GatedState { message: s.message, signaled: false }
}

/// The shared buffer with its length-prefix framing and the completion gate.
///
/// `storage[0]` is the length prefix; the message occupies the bytes right
/// behind it.
pub struct GatedDevice {
    storage: Vec<u8>,
    gate: CompletionGate,
}

impl View for GatedDevice {
    type V = GatedState;

    /// The observable state: the prefix-framed message and the signal.
    closed spec fn view(&self) -> GatedState {
        GatedState {
            message: self.storage@.subrange(1, 1 + self.storage@[0] as int),
            signaled: self.gate.is_signaled(),
        }
    }
}

impl GatedDevice {
    /// Well-formedness: the backing array has exactly the fixed capacity.
    /// The prefix byte then always names a range that fits: a byte is at
    /// most 255 and the capacity leaves room for 255 payload bytes behind
    /// the prefix.
    pub closed spec fn wf(&self) -> bool {
        self.storage@.len() == BUFFER_CAPACITY
    }

    /// A fresh gated device: a zeroed buffer — so an empty message — and an
    /// unsignaled gate.
    pub fn new() -> (dev: GatedDevice)
        ensures
            dev.wf(),
            dev@.message == Seq::<u8>::empty(),
            !dev@.signaled,
    {
        let mut storage: Vec<u8> = Vec::new();
        while storage.len() < BUFFER_CAPACITY
            invariant
                storage@.len() <= BUFFER_CAPACITY,
                forall|j: int| 0 <= j < storage@.len() ==> storage@[j] == 0u8,
            decreases BUFFER_CAPACITY - storage@.len(),
        {
            storage.push(0u8);
        }
        let dev = GatedDevice { storage, gate: CompletionGate::new() };
        assert(dev@.message =~= Seq::<u8>::empty());
        dev
    }

    /// Whether the completion gate holds an unconsumed signal: the
    /// predicate a reader's wait loop tests before taking the message.
    pub fn message_ready(&self) -> (b: bool)
        ensures
            b == self@.signaled,
    {
        self.gate.is_ready()
    }

    /// Writes `data` as the device's message and signals the completion gate.
    ///
    /// Succeeds, returning the full length written, exactly when `data`
    /// fits the one-byte length prefix; the prefix is set to the payload
    /// length, the payload is stored behind it, and the completion gate is
    /// signaled so that a waiting reader may proceed. A longer write fails with
    /// `CapacityExceeded` and changes nothing — the message is never
    /// truncated. Writing zero bytes stores the empty message and still
    /// signals the completion gate.
    #[verifier::loop_isolation(false)]
    pub fn write(&mut self, data: &[u8]) -> (r: Result<usize, DeviceError>)
        requires
            old(self).wf(),
        ensures
            final(self).wf(),
            final(self)@ == gated_write_state(old(self)@, data@),
            gated_write_accepted(data@) ==> r == Ok::<usize, DeviceError>(data@.len() as usize),
            !gated_write_accepted(data@) ==> r == Err::<usize, DeviceError>(
                DeviceError::CapacityExceeded,
            ),
    {
        if data.len() > MAX_MESSAGE_LEN {
            return Err(DeviceError::CapacityExceeded);
        }
        self.storage[0] = data.len() as u8;
        let mut i: usize = 0;
        while i < data.len()
            invariant
                i <= data@.len(),
                self.storage@.len() == BUFFER_CAPACITY,
                self.storage@[0] == data@.len() as u8,
                self.gate == old(self).gate,
                forall|j: int| 0 <= j < i ==> self.storage@[1 + j] == data@[j],
            decreases data@.len() - i,
        {
            self.storage[1 + i] = data[i];
            i += 1;
        }
        self.gate.signal();
        assert(self@.message =~= data@);
        assert(self@ =~= gated_write_state(old(self)@, data@));
        Ok(data.len())
    }

    /// Takes the stored message: consumes the completion gate's signal and
    /// returns exactly the bytes the length prefix names, in order. The message
    /// stays in the buffer; only the signal is consumed, so the next reader
    /// waits for the next write.
    ///
    /// The caller must have seen the completion gate signaled — in a
    /// blocking setting, must have waited until [`Self::message_ready`]
    /// holds under the lock.
    #[verifier::loop_isolation(false)]
    pub fn take_message(&mut self) -> (r: Vec<u8>)
        requires
            old(self).wf(),
            old(self)@.signaled,
        ensures
            final(self).wf(),
            r@ == gated_read_value(old(self)@),
            final(self)@ == gated_read_state(old(self)@),
    {
        self.gate.consume();
        assert(self@ =~= gated_read_state(old(self)@));
        let len = self.storage[0] as usize;
        let mut out: Vec<u8> = Vec::new();
        let mut i: usize = 0;
        while i < len
            invariant
                i <= len,
                self.storage@ == old(self).storage@,
                self@ == gated_read_state(old(self)@),
                len == old(self)@.message.len(),
                out@ == old(self)@.message.subrange(0, i as int),
            decreases len - i,
        {
            out.push(self.storage[1 + i]);
            assert(out@ =~= old(self)@.message.subrange(0, i + 1));
            i += 1;
        }
        assert(out@ =~= old(self)@.message);
        out
    }

    /// Takes the stored message if the completion gate is signaled, and
    /// reports that nothing was ready otherwise. The non-blocking form of
    /// [`Self::take_message`] for callers that have not tested the signal.
    pub fn try_take_message(&mut self) -> (r: Option<Vec<u8>>)
        requires
            old(self).wf(),
        ensures
            final(self).wf(),
            old(self)@.signaled ==> (r matches Some(v) && v@ == gated_read_value(old(self)@)
                && final(self)@ == gated_read_state(old(self)@)),
            !old(self)@.signaled ==> r is None && final(self)@ == old(self)@,
    {
        if self.gate.is_ready() {
            let out = self.take_message();
            Some(out)
        } else {
            None
        }
    }
}

/// Whether a gated read returns empty at once instead of waiting: it does
/// exactly when the caller's destination has zero capacity or the request is
/// at a nonzero positional offset (a positional re-read is end-of-stream).
pub open spec fn spec_read_returns_immediately(dest_capacity: usize, pos: u64) -> bool {
    dest_capacity == 0 || pos > 0
}

/// Decides whether a gated read must return empty at once, without blocking.
///
/// Only when this returns false does the reader wait on the completion
/// gate and take the message.
pub fn read_returns_immediately(dest_capacity: usize, pos: u64) -> (b: bool)
    ensures
        b == spec_read_returns_immediately(dest_capacity, pos),
{
    dest_capacity == 0 || pos > 0
}

/// The handoff is exact: a write of any `d` that fits the prefix signals —
/// also for the empty `d` — and the read releases exactly `d`, its length
/// taken from the stored prefix; consuming the signal leaves the next
/// reader blocked until the next write.
pub proof fn lemma_gated_handoff(s: GatedState, d: Seq<u8>)
    requires
        d.len() <= MAX_MESSAGE_LEN,
    ensures
        gated_write_accepted(d),
        gated_write_state(s, d).signaled,
        gated_read_value(gated_write_state(s, d)) == d,
        !gated_read_state(gated_write_state(s, d)).signaled,
{
}

} // verus!
