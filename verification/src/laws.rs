//! The guarantees of the transition table, stated once and proved for
//! every machine, poll flag and instant.

use vstd::prelude::*;

use crate::machine::ActivityStateMachine;
use crate::user::{State, User};

verus! {

/// The edges the transition table can take in one tick: staying put,
/// Idle to Active, Active to Alert, Active to Idle, or Alert to Idle.
pub open spec fn allowed_transition(s1: State, s2: State) -> bool {
    ||| s1 == s2
    ||| (s1 == State::Idle && s2 == State::Active)
    ||| (s1 == State::Active && s2 == State::Alert)
    ||| (s1 == State::Active && s2 == State::Idle)
    ||| (s1 == State::Alert && s2 == State::Idle)
}

/// One tick only ever takes an edge of the transition table; in
/// particular Idle never jumps straight to Alert, and Alert never
/// returns to Active.
pub proof fn lemma_step_follows_table(m: ActivityStateMachine, activity: bool, now: u64)
    ensures
        allowed_transition(m.user.state, m.spec_step(activity, now).user.state),
        !(m.user.state == State::Idle && m.spec_step(activity, now).user.state == State::Alert),
        !(m.user.state == State::Alert && m.spec_step(activity, now).user.state == State::Active),
{
}

/// Over any whole poll sequence, every pair of consecutive observed
/// states is an edge of the transition table.
pub proof fn lemma_run_follows_table(m: ActivityStateMachine, polls: Seq<(bool, u64)>, i: int)
    requires
        0 <= i < polls.len(),
    ensures
        allowed_transition(
            m.spec_run(polls.take(i)).user.state,
            m.spec_run(polls.take(i + 1)).user.state,
        ),
{
    let before = m.spec_run(polls.take(i));
    assert(polls.take(i + 1).drop_last() =~= polls.take(i));
    assert(polls.take(i + 1).last() == polls[i]);
    assert(m.spec_run(polls.take(i + 1)) == before.spec_step(polls[i].0, polls[i].1));
    lemma_step_follows_table(before, polls[i].0, polls[i].1);
}

/// Idle becomes Active on the first tick whose activity flag is true,
/// whatever the inactivity timer held before.
pub proof fn lemma_idle_to_active_immediate(m: ActivityStateMachine, now: u64)
    requires
        m.user.state == State::Idle,
    ensures
        m.spec_step(true, now).user == (User { state: State::Active, updated: now }),
        m.spec_step(true, now).inactive_since is None,
{
}

/// Active outlasts any run of inactivity shorter than the idle trigger:
/// the state, its entry instant and the timer all stand.
pub proof fn lemma_active_persists_below_idle_trigger(
    m: ActivityStateMachine,
    now: u64,
    began: u64,
)
    requires
        m.user.state == State::Active,
        m.inactive_since == Some(began),
        began <= now,
        now - began < m.config.idle_trigger,
    ensures
        m.spec_step(false, now).user == m.user,
        m.spec_step(false, now).inactive_since == Some(began),
{
}

/// Active downgrades to Idle exactly on the first tick at which
/// continuous inactivity reaches the idle trigger.
pub proof fn lemma_active_downgrades_at_idle_trigger(
    m: ActivityStateMachine,
    now: u64,
    began: u64,
)
    requires
        m.user.state == State::Active,
        m.inactive_since == Some(began),
        began <= now,
        now - began >= m.config.idle_trigger,
    ensures
        m.spec_step(false, now).user == (User { state: State::Idle, updated: now }),
        m.spec_step(false, now).inactive_since is None,
{
}

/// Active escalates to Alert exactly on an activity tick at which
/// time-in-Active has reached the alert trigger; a silent tick never
/// escalates, however long the state has lasted.
pub proof fn lemma_escalation_exact(m: ActivityStateMachine, now: u64)
    requires
        m.user.state == State::Active,
        m.user.updated <= now,
    ensures
        (m.spec_step(true, now).user.state == State::Alert) <==> (now - m.user.updated
            >= m.config.alert_trigger),
        m.spec_step(true, now).user.state == State::Alert ==> m.spec_step(
            true,
            now,
        ).user.updated == now,
        m.spec_step(false, now).user.state != State::Alert,
{
}

/// The state's entry instant moves only at a transition: an in-state
/// tick leaves the whole state record untouched, and a transition
/// stamps it with the transition instant.
pub proof fn lemma_entered_at_changes_only_on_transition(
    m: ActivityStateMachine,
    activity: bool,
    now: u64,
)
    ensures
        m.spec_step(activity, now).user.state == m.user.state ==> m.spec_step(
            activity,
            now,
        ).user == m.user,
        m.spec_step(activity, now).user.state != m.user.state ==> m.spec_step(
            activity,
            now,
        ).user.updated == now,
{
}

/// An activity tick clears the inactivity timer, in every state.
pub proof fn lemma_activity_clears_inactivity_timer(m: ActivityStateMachine, now: u64)
    ensures
        m.spec_step(true, now).inactive_since is None,
{
}

/// Alert outlasts any run of silence shorter than the break duration.
pub proof fn lemma_alert_persists_below_break(m: ActivityStateMachine, now: u64, began: u64)
    requires
        m.user.state == State::Alert,
        m.inactive_since == Some(began),
        began <= now,
        now - began < m.config.break_duration,
    ensures
        m.spec_step(false, now).user == m.user,
        m.spec_step(false, now).inactive_since == Some(began),
{
}

/// Alert clears to Idle exactly on the first tick at which continuous
/// silence reaches the break duration.
pub proof fn lemma_alert_clears_at_break(m: ActivityStateMachine, now: u64, began: u64)
    requires
        m.user.state == State::Alert,
        m.inactive_since == Some(began),
        began <= now,
        now - began >= m.config.break_duration,
    ensures
        m.spec_step(false, now).user == (User { state: State::Idle, updated: now }),
        m.spec_step(false, now).inactive_since is None,
{
}

} // verus!
