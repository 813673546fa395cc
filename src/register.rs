use std::sync::atomic::{AtomicUsize, Ordering};
use vstd::prelude::*;

use crate::poll::state_after_poll;
use crate::state::{next_ordinal, LedState};

verus! {

/// A lock-free cell that holds the current `LedState` as its ordinal.
///
/// Every operation is one atomic access (or, for `increment`, a load followed
/// by a store), so any task may read or write it without blocking. The value
/// a reader sees may be stale relative to a concurrent writer.
///
/// Only `new`, `store` and `increment` write the cell, and each writes the
/// ordinal of a state; std's atomics carry no model of their contents, so
/// readers still decode what they see and report an out-of-range value
/// instead of coercing it.
pub struct AtomicLedState {
    state: AtomicUsize,
}

impl AtomicLedState {
    /// A register that holds `initial_state`.
    pub fn new(initial_state: LedState) -> Self {
        let ordinal = initial_state.to_usize();
        AtomicLedState { state: AtomicUsize::new(ordinal) }
    }

    /// Reads the current state; `None` only if the cell holds an ordinal that
    /// no state encodes, which the writers of this type never store. A load
    /// may not use `Release` or `AcqRel` ordering, on which std panics.
    pub fn load(&self, ordering: Ordering) -> (r: Option<LedState>)
        requires
            ordering != Ordering::Release && ordering != Ordering::AcqRel,
    {
        let value = self.state.load(ordering);
        LedState::from_usize(value)
    }

    /// Writes `state`. A store may not use `Acquire` or `AcqRel` ordering, on
    /// which std panics.
    pub fn store(&self, state: LedState, ordering: Ordering)
        requires
            ordering != Ordering::Acquire && ordering != Ordering::AcqRel,
    {
        let ordinal = state.to_usize();
        self.state.store(ordinal, ordering);
    }

    /// Advances the register to the next state in the cycle and returns the
    /// state written; `None`, with nothing written, if the value read was out
    /// of range. The load and the store are separate accesses: two concurrent
    /// increments may lose one update. Both accesses use `ordering`, so it is
    /// `Relaxed` or `SeqCst`.
    pub fn increment(&self, ordering: Ordering) -> (r: Option<LedState>)
        requires
            ordering == Ordering::Relaxed || ordering == Ordering::SeqCst,
    {
        let value = self.state.load(ordering);
        match next_ordinal(value) {
            Some(n) => {
                self.state.store(n, ordering);
                LedState::from_usize(n)
            },
            None => None,
        }
    }

    /// Records the outcome of a network poll: stores `Clear` on success and
    /// `Error` on failure.
    pub fn record_poll(&self, succeeded: bool, ordering: Ordering)
        requires
            ordering != Ordering::Acquire && ordering != Ordering::AcqRel,
    {
        self.store(state_after_poll(succeeded), ordering);
    }
}

} // verus!
