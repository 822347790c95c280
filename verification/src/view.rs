//! Immutable engine view-state snapshots.
//!
//! Each poll copies the engine's observable state into a `ViewState`
//! value; the snapshot never aliases the engine's internal mutable state.
//! The flags word is a bitmask of independent, combinable bits.

use vstd::prelude::*;

verus! {

/// Engine view state, copied out on each poll.
#[derive(Clone, Copy, Debug, PartialEq, Eq, Structural)]
pub struct ViewState {
    /// Monotonic change counter: bumped on every event append and on
    /// every session-lifecycle transition.
    pub generation: u64,
    /// Timestamp of the most recently committed event, in nanoseconds
    /// since session start; 0 when the current session has none.
    pub timestamp_ns: u64,
    /// Bitmask of the `PENDING`, `COMPLETE`, `READY` and `ERROR` bits.
    pub flags: u64,
    /// Progress estimate in per-mille (0 ..= 1000).
    pub progress: u16,
}

impl ViewState {
    /// No flag set: nothing has happened since construction or reset.
    pub const IDLE: u64 = 0;

    /// A session is between submit and completion.
    pub const PENDING: u64 = 1u64 << 0;

    /// The most recent session reached `StoppedSuccess`.
    pub const COMPLETE: u64 = 1u64 << 1;

    /// At least one event has been committed to the graph.
    pub const READY: u64 = 1u64 << 2;

    /// A failure occurred during the most recent session: launch or
    /// attach failed, or at least one event was dropped on arena
    /// exhaustion.
    pub const ERROR: u64 = 1u64 << 3;

    /// Whether the `COMPLETE` bit is set.
    pub fn is_complete(&self) -> (r: bool)
        ensures
            r == (self.flags & ViewState::COMPLETE != 0),
    {
        self.flags & Self::COMPLETE != 0
    }

    /// Whether the `PENDING` bit is set.
    pub fn is_pending(&self) -> (r: bool)
        ensures
            r == (self.flags & ViewState::PENDING != 0),
    {
        self.flags & Self::PENDING != 0
    }
}

/// The flags word published for a given combination of the four
/// conditions: one bit each, independently combinable.
pub open spec fn flags_of(pending: bool, complete: bool, ready: bool, error: bool) -> u64 {
    (if pending {
        1u64
    } else {
        0u64
    }) | (if complete {
        2u64
    } else {
        0u64
    }) | (if ready {
        4u64
    } else {
        0u64
    }) | (if error {
        8u64
    } else {
        0u64
    })
}

/// Law: the four flag bits are independent — each condition sets exactly
/// its own bit, readable back regardless of the other three.
pub proof fn lemma_flags_bits(pending: bool, complete: bool, ready: bool, error: bool)
    ensures
        (flags_of(pending, complete, ready, error) & ViewState::PENDING != 0) == pending,
        (flags_of(pending, complete, ready, error) & ViewState::COMPLETE != 0) == complete,
        (flags_of(pending, complete, ready, error) & ViewState::READY != 0) == ready,
        (flags_of(pending, complete, ready, error) & ViewState::ERROR != 0) == error,
{
    let p: u64 = if pending { 1u64 } else { 0u64 };
    let c: u64 = if complete { 2u64 } else { 0u64 };
    let r: u64 = if ready { 4u64 } else { 0u64 };
    let e: u64 = if error { 8u64 } else { 0u64 };
    assert((p == 0 || p == 1) && (c == 0 || c == 2) && (r == 0 || r == 4) && (e == 0 || e == 8)
        ==> {
        &&& ((p | c | r | e) & 1u64 != 0) == (p == 1)
        &&& ((p | c | r | e) & 2u64 != 0) == (c == 2)
        &&& ((p | c | r | e) & 4u64 != 0) == (r == 4)
        &&& ((p | c | r | e) & 8u64 != 0) == (e == 8)
    }) by (bit_vector);
    assert(ViewState::PENDING == 1u64 && ViewState::COMPLETE == 2u64 && ViewState::READY == 4u64
        && ViewState::ERROR == 8u64) by (bit_vector);
}

} // verus!
