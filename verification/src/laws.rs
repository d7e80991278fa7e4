//! Proved laws of the scheduler's timing model.
//!
//! Each proof function states a property of the spec functions that the
//! scheduler's contracts are written over, so the property carries over to
//! every execution of the corresponding operations.

use crate::scheduler::FANFARE_WINDOW_MILLIS;
use crate::scheduler::Scheduler;
use crate::scheduler::SessionState;
use crate::scheduler::millis_since;
use crate::scheduler::pause_transition;
use crate::scheduler::resume_transition;
use vstd::prelude::*;

verus! {

/// While a session is live, the remaining time lies within
/// `[0, phase_duration]` at every instant.
pub proof fn lemma_remaining_in_bounds(s: SessionState, now: u64)
    requires
        s.wf(),
    ensures
        0 <= s.remaining_ms_at(now) <= s.phase_duration_ms(),
{
}

/// While a phase runs, the remaining time never increases as the wall clock
/// advances, and strictly decreases as long as it has not yet reached zero.
/// Only a phase transition — which replaces the session state — resets it.
pub proof fn lemma_remaining_monotone(s: SessionState, now1: u64, now2: u64)
    requires
        s.wf(),
        s matches SessionState::Running { .. },
        now1 <= now2,
    ensures
        s.remaining_ms_at(now2) <= s.remaining_ms_at(now1),
        (s matches SessionState::Running { started_at, .. } && started_at <= now1 < now2
            && s.remaining_ms_at(now1) > 0) ==> s.remaining_ms_at(now2) < s.remaining_ms_at(now1),
{
}

/// Pausing freezes the remaining time, and resuming after an arbitrary
/// real delay reproduces it exactly: the remaining time immediately after
/// the resume equals the remaining time at the moment of the pause.
pub proof fn lemma_pause_resume_continuity(s: SessionState, pause_now: u64, resume_now: u64)
    requires
        s.wf(),
        s matches SessionState::Running { .. },
    ensures
        resume_transition(pause_transition(s, pause_now), resume_now).remaining_ms_at(resume_now)
            == s.remaining_ms_at(pause_now),
{
    lemma_remaining_in_bounds(s, pause_now);
}

/// An armed fanfare is showing the moment it is armed, and stops showing
/// exactly once the display window has elapsed since arming — independent of
/// any phase logic.
pub proof fn lemma_fanfare_window(sched: Scheduler, armed_at: u64, now: u64)
    requires
        sched.fanfare_armed_at == Some(armed_at),
    ensures
        sched.fanfare_active_at(armed_at),
        sched.fanfare_active_at(now) <==> millis_since(armed_at, now) < FANFARE_WINDOW_MILLIS,
{
}

} // verus!
