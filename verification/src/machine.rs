//! The time-threshold-driven activity state machine.
//!
//! Each tick the main loop reports one boolean activity flag together with
//! the current instant (milliseconds on a monotonic clock); `step` computes
//! the next state exactly as the transition table `spec_step` says.

use vstd::prelude::*;

use crate::user::{State, User};

verus! {

/// Continuous-activity duration before `Active` escalates to `Alert`: one hour.
pub const ALERT_TRIGGER_MS: u64 = 60 * 60 * 1000;

/// Continuous-inactivity duration before `Active` downgrades to `Idle`: five minutes.
pub const IDLE_TRIGGER_MS: u64 = 60 * 5 * 1000;

/// Continuous-inactivity duration before `Alert` clears to `Idle`: five minutes.
pub const BREAK_DURATION_MS: u64 = 60 * 5 * 1000;

/// The three duration thresholds, injectable so tests can use
/// millisecond-scale values instead of real hours.
#[derive(Clone, Copy, Debug)]
pub struct Config {
    pub alert_trigger: u64,
    pub idle_trigger: u64,
    pub break_duration: u64,
}

impl Config {
    /// The standard thresholds.
    pub fn standard() -> (c: Config)
        ensures
            c == (Config {
                alert_trigger: ALERT_TRIGGER_MS,
                idle_trigger: IDLE_TRIGGER_MS,
                break_duration: BREAK_DURATION_MS,
            }),
    {
        Config {
            alert_trigger: ALERT_TRIGGER_MS,
            idle_trigger: IDLE_TRIGGER_MS,
            break_duration: BREAK_DURATION_MS,
        }
    }
}

/// Current state, the instant it was entered, and the inactivity timer:
/// the instant at which consecutive device inactivity began within the
/// current state, present only while silence lasts.
#[derive(Clone, Copy, Debug)]
pub struct ActivityStateMachine {
    pub config: Config,
    pub user: User,
    pub inactive_since: Option<u64>,
}

impl ActivityStateMachine {
    /// Internal consistency: the inactivity timer never predates the
    /// current state, and `Idle` keeps no inactivity timer.
    pub open spec fn wf(&self) -> bool {
        &&& match self.inactive_since {
            Some(t) => self.user.updated <= t,
            None => true,
        }
        &&& self.user.state == State::Idle ==> self.inactive_since is None
    }

    /// The tick instant `now` is not behind anything the machine remembers.
    pub open spec fn now_valid(&self, now: u64) -> bool {
        &&& self.user.updated <= now
        &&& match self.inactive_since {
            Some(t) => t <= now,
            None => true,
        }
    }

    /// A freshly started machine: `Idle` as of `now`, no inactivity timer.
    pub fn new(config: Config, now: u64) -> (m: ActivityStateMachine)
        ensures
            m == (ActivityStateMachine {
                config,
                user: User { state: State::Idle, updated: now },
                inactive_since: None,
            }),
            m.wf(),
    {
        ActivityStateMachine { config, user: User::new(now), inactive_since: None }
    }

    /// One tick of the transition table, as a mathematical function.
    ///
    /// | state  | activity | action                                                       |
    /// |--------|----------|--------------------------------------------------------------|
    /// | Idle   | true     | enter Active; clear timer                                    |
    /// | Idle   | false    | stay Idle; timer stays clear                                 |
    /// | Active | true     | clear timer; enter Alert if time-in-state reached the trigger|
    /// | Active | false    | start/keep timer; enter Idle once silence reached the trigger|
    /// | Alert  | true     | clear timer; stay Alert                                      |
    /// | Alert  | false    | start/keep timer; enter Idle once the break is complete      |
    pub open spec fn spec_step(self, activity: bool, now: u64) -> ActivityStateMachine {
        match (self.user.state, activity) {
            (State::Idle, true) => ActivityStateMachine {
                user: User { state: State::Active, updated: now },
                inactive_since: None,
                ..self
            },
            (State::Idle, false) => ActivityStateMachine { inactive_since: None, ..self },
            (State::Active, true) => if now - self.user.updated >= self.config.alert_trigger {
                ActivityStateMachine {
                    user: User { state: State::Alert, updated: now },
                    inactive_since: None,
                    ..self
                }
            } else {
                ActivityStateMachine { inactive_since: None, ..self }
            },
            (State::Active, false) => {
                let begun = match self.inactive_since {
                    Some(t) => t,
                    None => now,
                };
                if now - begun >= self.config.idle_trigger {
                    ActivityStateMachine {
                        user: User { state: State::Idle, updated: now },
                        inactive_since: None,
                        ..self
                    }
                } else {
                    ActivityStateMachine { inactive_since: Some(begun), ..self }
                }
            },
            (State::Alert, true) => ActivityStateMachine { inactive_since: None, ..self },
            (State::Alert, false) => {
                let begun = match self.inactive_since {
                    Some(t) => t,
                    None => now,
                };
                if now - begun >= self.config.break_duration {
                    ActivityStateMachine {
                        user: User { state: State::Idle, updated: now },
                        inactive_since: None,
                        ..self
                    }
                } else {
                    ActivityStateMachine { inactive_since: Some(begun), ..self }
                }
            },
        }
    }

    /// The machine after a whole sequence of polls, each a pair of the
    /// activity flag and the tick instant, applied in order.
    pub open spec fn spec_run(self, polls: Seq<(bool, u64)>) -> ActivityStateMachine
        decreases polls.len(),
    {
        if polls.len() == 0 {
            self
        } else {
            self.spec_run(polls.drop_last()).spec_step(polls.last().0, polls.last().1)
        }
    }

    /// Advance the machine by one tick.
    pub fn step(&mut self, activity: bool, now: u64)
        requires
            old(self).wf(),
            old(self).now_valid(now),
        ensures
            *final(self) == old(self).spec_step(activity, now),
            final(self).wf(),
            final(self).now_valid(now),
            old(self).user.updated <= final(self).user.updated,
    {
        match (self.user.state, activity) {
            (State::Idle, true) => {
                self.user.set_state(State::Active, now);
                self.inactive_since = None;
            },
            (State::Idle, false) => {
                self.inactive_since = None;
            },
            (State::Active, true) => {
                self.inactive_since = None;
                if now - self.user.updated >= self.config.alert_trigger {
                    self.user.set_state(State::Alert, now);
                }
            },
            (State::Active, false) => {
                let begun: u64 = match self.inactive_since {
                    Some(t) => t,
                    None => now,
                };
                if now - begun >= self.config.idle_trigger {
                    self.user.set_state(State::Idle, now);
                    self.inactive_since = None;
                } else {
                    self.inactive_since = Some(begun);
                }
            },
            (State::Alert, true) => {
                self.inactive_since = None;
            },
            (State::Alert, false) => {
                let begun: u64 = match self.inactive_since {
                    Some(t) => t,
                    None => now,
                };
                if now - begun >= self.config.break_duration {
                    self.user.set_state(State::Idle, now);
                    self.inactive_since = None;
                } else {
                    self.inactive_since = Some(begun);
                }
            },
        }
    }
}

} // verus!
