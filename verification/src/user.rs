//! The monitored user's activity classification and its per-state clock.

use vstd::prelude::*;

verus! {

/// The tri-state activity classification. `Idle` is the initial state.
#[derive(Clone, Copy, PartialEq, Eq, Structural, Debug)]
pub enum State {
    Active,
    Idle,
    Alert,
}

/// Current state together with the instant (milliseconds on a monotonic
/// clock) at which it was entered. `updated` changes only on a state
/// transition, never on an in-state refresh.
#[derive(Clone, Copy, Debug)]
pub struct User {
    pub state: State,
    pub updated: u64,
}

impl User {
    /// A freshly started monitor: the user is `Idle` as of `now`.
    pub fn new(now: u64) -> (u: User)
        ensures
            u == (User { state: State::Idle, updated: now }),
    {
        User { state: State::Idle, updated: now }
    }

    /// Record a transition into `new_state` at instant `now`.
    pub fn set_state(&mut self, new_state: State, now: u64)
        ensures
            *final(self) == (User { state: new_state, updated: now }),
    {
        self.state = new_state;
        self.updated = now;
    }

    /// Milliseconds spent in the current state as of `now`.
    pub fn time_in_current_state(&self, now: u64) -> (d: u64)
        requires
            self.updated <= now,
        ensures
            d == now - self.updated,
    {
        now - self.updated
    }
}

} // verus!
