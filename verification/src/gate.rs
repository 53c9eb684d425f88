//! The completion gate: a reusable single-slot handoff signal between one
//! producer and one consumer.
//!
//! A writer signals; a reader consumes the signal before taking the data.
//! Signaling is not cumulative: a gate is a single slot, not a counter, so
//! several signals before a consume release exactly one consumer, and after
//! a consume the next consumer must wait for the next signal. The blocking
//! itself — suspending a thread until a signal arrives — is the caller's
//! concern; a gate holds the state that the caller's wait loop tests under
//! its lock.

use vstd::prelude::*;

verus! {

/// The signal slot of the handoff.
pub struct CompletionGate {
    signaled: bool,
}

impl CompletionGate {
    /// Whether the completion gate currently holds an unconsumed signal.
    pub closed spec fn is_signaled(&self) -> bool {
        self.signaled
    }

    /// A fresh gate holds no signal: a consumer arriving first must wait.
    pub fn new() -> (gate: CompletionGate)
        ensures
            !gate.is_signaled(),
    {
        CompletionGate { signaled: false }
    }

    /// Raises the signal. Signaling an already signaled gate changes
    /// nothing: signals do not queue.
    pub fn signal(&mut self)
        ensures
            final(self).is_signaled(),
    {
        self.signaled = true;
    }

    /// Whether a consumer may proceed without waiting.
    pub fn is_ready(&self) -> (b: bool)
        ensures
            b == self.is_signaled(),
    {
        self.signaled
    }

    /// Consumes the signal: the slot resets and the next consumer waits
    /// for the next signal.
    pub fn consume(&mut self)
        requires
            old(self).is_signaled(),
        ensures
            !final(self).is_signaled(),
    {
        self.signaled = false;
    }
}

} // verus!
