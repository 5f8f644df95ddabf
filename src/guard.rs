//! The raw-mode guard: it owns the terminal state that was captured when raw
//! mode was entered, cannot be copied, and gives that state up only by being
//! consumed, so that it is restored at most once.
use vstd::prelude::*;

verus! {

/// Owns the state captured on entering raw mode.
pub struct RawModeGuard<S> {
    original_state: S,
}

impl<S> View for RawModeGuard<S> {
    type V = S;

    closed spec fn view(&self) -> S {
        self.original_state
    }
}

impl<S> RawModeGuard<S> {
    /// A guard over the state `original_state` that entering raw mode
    /// captured.
    pub fn new(original_state: S) -> (r: Self)
        ensures
            r@ == original_state,
    {
        RawModeGuard { original_state }
    }

    /// Ends the guard, handing back the captured state for restoration.
    pub fn release(self) -> (r: S)
        ensures
            r == self@,
    {
        self.original_state
    }
}

} // verus!
