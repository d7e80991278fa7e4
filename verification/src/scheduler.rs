//! The interval scheduler: a deterministic, pollable state machine.
//!
//! A host loop drives the scheduler with `tick(now)` at a sub-second cadence
//! and forwards user commands (`start`, `pause`, `resume`, `stop`,
//! `configure`).  Timestamps are wall-clock milliseconds.  Elapsed and
//! remaining time are always recomputed from the absolute timestamp at which
//! the current phase started, never decremented per tick, so skipped,
//! delayed or batched ticks cannot make the timer drift: the next tick still
//! compares against absolute elapsed time.
//!
//! The scheduler performs no I/O.  Every operation returns the [`Effect`]s
//! the host should execute (play a cue, show the fanfare, persist settings).

use crate::config::Configuration;
use crate::config::MAX_ROUNDS;
use crate::config::MAX_WORKOUT_SECS;
use crate::config::ValidationError;
use vstd::prelude::*;

verus! {

/// Milliseconds per second: durations are configured in seconds but all
/// timestamps and internal clocks are milliseconds.
pub const MILLIS_PER_SECOND: u64 = 1000;

/// How long the completion fanfare stays active, in milliseconds.
pub const FANFARE_WINDOW_MILLIS: u64 = 2000;

/// Longest possible phase, in milliseconds (the workout bound dominates).
pub const MAX_PHASE_DURATION_MILLIS: u64 = MAX_WORKOUT_SECS * MILLIS_PER_SECOND;

/// Largest accepted timestamp, in milliseconds.  The headroom above it keeps
/// every elapsed-time computation inside `u64` even after a full phase.
pub const MAX_TIMESTAMP_MILLIS: u64 = u64::MAX - 1000000;

/// Scale of the progress fraction: a progress of `PROGRESS_SCALE` means the
/// current phase has fully elapsed.
pub const PROGRESS_SCALE: u64 = 1000;

/// A timed segment of a cycle.  A round is one Workout followed by one Rest;
/// LeadUp occurs once, before the first round.
#[derive(Clone, Copy, Debug, PartialEq, Eq, Structural)]
pub enum Phase {
    LeadUp,
    Workout,
    Rest,
}

/// Which audio cue a [`Effect::PlayCue`] asks the host to play.
#[derive(Clone, Copy, Debug, PartialEq, Eq, Structural)]
pub enum CueKind {
    /// A workout phase begins.  Never emitted by the scheduler itself: the
    /// end of the lead-up is silent, and hosts that want an audible start
    /// cue map it themselves.
    WorkStart,
    /// A workout phase ended; a rest phase begins.
    WorkEnd,
    /// A rest phase ended; the next round's workout begins.
    RestEnd,
    /// The final rest ended; the whole cycle is complete.
    Complete,
}

/// An instruction to the host.  The scheduler only returns effects; the host
/// executes them.  Timing stays correct even if the host drops every effect.
#[derive(Clone, Copy, Debug, PartialEq, Eq, Structural)]
pub enum Effect {
    /// Play the given audio cue.
    PlayCue(CueKind),
    /// Show the completion fanfare.
    TriggerFanfare,
    /// The configuration changed; persist the given value.
    SettingsChanged(Configuration),
}

/// The live session.  `Running` holds the absolute timestamp at which the
/// phase started plus the milliseconds that had already elapsed before the
/// last resume, so elapsed time is always derived from the wall clock.
/// `Paused` holds only the frozen remaining time.  The phase duration is
/// captured when the phase is entered: editing the configuration never
/// alters a phase already in progress.
#[derive(Clone, Copy, Debug, PartialEq, Eq, Structural)]
pub enum SessionState {
    /// No cycle is running.  Initial state, and reached again after the
    /// final round's rest or an explicit stop.
    Idle,
    /// A phase is in progress.
    Running { phase: Phase, duration_ms: u64, started_at: u64, base_elapsed_ms: u64 },
    /// A phase is interrupted; `remaining_ms` is the remaining time captured
    /// at the moment of the pause.
    Paused { phase: Phase, duration_ms: u64, remaining_ms: u64 },
}

/// The session state as shown to the user.
#[derive(Clone, Copy, Debug, PartialEq, Eq, Structural)]
pub enum TimerState {
    Idle,
    LeadUp,
    Workout,
    Rest,
    PausedLeadUp,
    PausedWorkout,
    PausedRest,
}

/// A command that is not meaningful in the current state, such as `resume`
/// while nothing is paused.  The session is left unchanged.
#[derive(Clone, Copy, Debug, PartialEq, Eq, Structural)]
pub struct InvalidCommand;

/// Read-only view of the scheduler for presentation, as of the most recent
/// timestamp the scheduler was given.
#[derive(Clone, Copy, Debug, PartialEq, Eq, Structural)]
pub struct Snapshot {
    /// The user-visible session state.
    pub state: TimerState,
    /// Zero-based index of the current round; display it as
    /// `current_round + 1` of `rounds`.
    pub current_round: u32,
    /// Configured number of rounds.
    pub rounds: u32,
    /// Remaining time in the current phase, in whole seconds, rounded up so
    /// the display reaches zero only when the phase does.
    pub remaining_secs: u64,
    /// Progress through the current phase on the scale `0..=PROGRESS_SCALE`;
    /// zero while idle.
    pub progress_permille: u64,
    /// Whether the completion fanfare is currently showing.
    pub fanfare_active: bool,
}

/// Milliseconds from `start` to `now`, zero if `now` lies before `start`.
pub open spec fn millis_since(start: u64, now: u64) -> int {
    if now >= start {
        now - start
    } else {
        0
    }
}

/// Whole seconds displayed for `ms` remaining milliseconds, rounded up, so
/// the display reaches zero exactly when the phase does.
pub open spec fn ceil_millis_to_secs(ms: int) -> int {
    (ms + MILLIS_PER_SECOND - 1) / (MILLIS_PER_SECOND as int)
}

/// The configured length, in seconds, of a phase of the given kind.
pub open spec fn configured_phase_secs(c: Configuration, phase: Phase) -> u64 {
    match phase {
        Phase::LeadUp => c.lead_up_duration,
        Phase::Workout => c.workout_duration,
        Phase::Rest => c.rest_duration,
    }
}

/// The state of a phase of kind `phase` freshly entered at `now` under
/// configuration `c`: its duration is captured from `c` at entry.
pub open spec fn fresh_running(c: Configuration, phase: Phase, now: u64) -> SessionState {
    SessionState::Running {
        phase,
        duration_ms: (configured_phase_secs(c, phase) * MILLIS_PER_SECOND) as u64,
        started_at: now,
        base_elapsed_ms: 0,
    }
}

/// The phase a fresh cycle starts in: the lead-up, or directly the first
/// workout when no lead-up is configured.
pub open spec fn start_phase(c: Configuration) -> Phase {
    if c.lead_up_duration == 0 {
        Phase::Workout
    } else {
        Phase::LeadUp
    }
}

/// What `pause` does to the session: a running phase freezes its remaining
/// time as of `now`; any other state is left unchanged.
pub open spec fn pause_transition(s: SessionState, now: u64) -> SessionState {
    match s {
        SessionState::Running { phase, duration_ms, .. } => SessionState::Paused {
            phase,
            duration_ms,
            remaining_ms: s.remaining_ms_at(now) as u64,
        },
        _ => s,
    }
}

/// What `resume` does to the session: a paused phase starts running again at
/// `now` with exactly the elapsed time it had when paused; any other state
/// is left unchanged.
pub open spec fn resume_transition(s: SessionState, now: u64) -> SessionState {
    match s {
        SessionState::Paused { phase, duration_ms, remaining_ms } => SessionState::Running {
            phase,
            duration_ms,
            started_at: now,
            base_elapsed_ms: (duration_ms - remaining_ms) as u64,
        },
        _ => s,
    }
}

impl SessionState {
    /// Structural bounds every session value satisfies: the captured phase
    /// duration is a whole, positive number of seconds no longer than the
    /// longest configurable phase, and elapsed or remaining time never
    /// exceeds it.
    pub open spec fn wf(self) -> bool {
        match self {
            SessionState::Idle => true,
            SessionState::Running { duration_ms, base_elapsed_ms, .. } => {
                &&& MILLIS_PER_SECOND <= duration_ms <= MAX_PHASE_DURATION_MILLIS
                &&& duration_ms % MILLIS_PER_SECOND == 0
                &&& base_elapsed_ms <= duration_ms
            },
            SessionState::Paused { duration_ms, remaining_ms, .. } => {
                &&& MILLIS_PER_SECOND <= duration_ms <= MAX_PHASE_DURATION_MILLIS
                &&& duration_ms % MILLIS_PER_SECOND == 0
                &&& remaining_ms <= duration_ms
            },
        }
    }

    /// The captured duration of the current phase, in milliseconds; zero
    /// while idle.
    pub open spec fn phase_duration_ms(self) -> int {
        match self {
            SessionState::Idle => 0,
            SessionState::Running { duration_ms, .. } => duration_ms as int,
            SessionState::Paused { duration_ms, .. } => duration_ms as int,
        }
    }

    /// Milliseconds elapsed in the current phase at wall-clock time `now`:
    /// the time accumulated before the last resume plus the time since the
    /// phase (re)started.
    pub open spec fn elapsed_ms_at(self, now: u64) -> int {
        match self {
            SessionState::Idle => 0,
            SessionState::Running { started_at, base_elapsed_ms, .. } => base_elapsed_ms
                + millis_since(started_at, now),
            SessionState::Paused { duration_ms, remaining_ms, .. } => duration_ms - remaining_ms,
        }
    }

    /// Milliseconds remaining in the current phase at wall-clock time `now`,
    /// saturating at zero; the frozen remaining time while paused.
    pub open spec fn remaining_ms_at(self, now: u64) -> int {
        match self {
            SessionState::Idle => 0,
            SessionState::Running { duration_ms, .. } => if self.elapsed_ms_at(now)
                >= duration_ms {
                0
            } else {
                duration_ms - self.elapsed_ms_at(now)
            },
            SessionState::Paused { remaining_ms, .. } => remaining_ms as int,
        }
    }

    /// The user-visible state this session is displayed as.
    pub open spec fn display(self) -> TimerState {
        match self {
            SessionState::Idle => TimerState::Idle,
            SessionState::Running { phase, .. } => match phase {
                Phase::LeadUp => TimerState::LeadUp,
                Phase::Workout => TimerState::Workout,
                Phase::Rest => TimerState::Rest,
            },
            SessionState::Paused { phase, .. } => match phase {
                Phase::LeadUp => TimerState::PausedLeadUp,
                Phase::Workout => TimerState::PausedWorkout,
                Phase::Rest => TimerState::PausedRest,
            },
        }
    }
}

/// The interval scheduler.  One instance per process, owned and driven
/// synchronously by the host loop; nothing here blocks or suspends.
pub struct Scheduler {
    /// The current, always valid configuration.
    pub config: Configuration,
    /// The live session.
    pub state: SessionState,
    /// Zero-based index of the current round; zero while idle.
    pub current_round: u32,
    /// When the completion fanfare was armed, if it was.  The fanfare is a
    /// display signal with its own short lifecycle: it gates no transition
    /// and expires `FANFARE_WINDOW_MILLIS` after arming.
    pub fanfare_armed_at: Option<u64>,
    /// The most recent timestamp handed to `tick`, `start` or `resume`.
    /// `pause` and `snapshot` take no timestamp of their own and read time
    /// as of this moment.
    pub last_now: u64,
}

impl Scheduler {
    /// The scheduler's invariant: the configuration is valid, the session is
    /// well formed, the round index is bounded and reset while idle, and
    /// every stored timestamp is one the scheduler accepts.  The round index
    /// is bounded by the largest configurable round count, not the current
    /// one: lowering `rounds` mid-cycle must not disturb the session, only
    /// end it at the next rest boundary.
    pub open spec fn wf(self) -> bool {
        &&& self.config.valid()
        &&& self.state.wf()
        &&& !(self.state is Idle) ==> self.current_round < MAX_ROUNDS
        &&& self.state is Idle ==> self.current_round == 0
        &&& self.last_now <= MAX_TIMESTAMP_MILLIS
    }

    /// The current phase has fully elapsed at `now`, so the next tick
    /// transitions.
    pub open spec fn phase_expired_at(self, now: u64) -> bool {
        self.state matches SessionState::Running { duration_ms, .. } && self.state.elapsed_ms_at(
            now,
        ) >= duration_ms
    }

    /// The tick at `now` ends the final round's rest and completes the
    /// cycle.
    pub open spec fn completes_cycle_at(self, now: u64) -> bool {
        &&& self.phase_expired_at(now)
        &&& self.state matches SessionState::Running { phase: Phase::Rest, .. }
        &&& self.current_round + 1 >= self.config.rounds
    }

    /// The completion fanfare is showing at `now`: it was armed and its
    /// display window has not yet elapsed.
    pub open spec fn fanfare_active_at(self, now: u64) -> bool {
        match self.fanfare_armed_at {
            Some(t) => millis_since(t, now) < FANFARE_WINDOW_MILLIS,
            None => false,
        }
    }

    /// Progress through the current phase on the scale `0..=PROGRESS_SCALE`
    /// at `now` (elapsed over duration, clamped); zero while idle.
    pub open spec fn progress_permille_at(self, now: u64) -> int {
        if self.state is Idle {
            0
        } else {
            (self.state.phase_duration_ms() - self.state.remaining_ms_at(now)) * PROGRESS_SCALE
                / self.state.phase_duration_ms()
        }
    }

    /// A fresh scheduler: idle, round zero, no fanfare.
    pub fn new(config: Configuration) -> (s: Scheduler)
        requires
            config.valid(),
        ensures
            s.wf(),
            s.config == config,
            s.state is Idle,
            s.current_round == 0,
            s.fanfare_armed_at is None,
            s.last_now == 0,
    {
        Scheduler {
            config,
            state: SessionState::Idle,
            current_round: 0,
            fanfare_armed_at: None,
            last_now: 0,
        }
    }

    /// Starts a cycle: from idle, enters the lead-up (or directly the first
    /// workout when no lead-up is configured) at round zero.  Ignored while
    /// a cycle is already running or paused.  Emits no effects.
    pub fn start(&mut self, now: u64) -> (effects: Vec<Effect>)
        requires
            old(self).wf(),
            now <= MAX_TIMESTAMP_MILLIS,
        ensures
            final(self).wf(),
            effects@ == Seq::<Effect>::empty(),
            final(self).config == old(self).config,
            final(self).fanfare_armed_at == old(self).fanfare_armed_at,
            old(self).state is Idle ==> {
                &&& final(self).state == fresh_running(old(self).config, start_phase(old(self).config), now)
                &&& final(self).current_round == 0
                &&& final(self).last_now == now
            },
            !(old(self).state is Idle) ==> *final(self) == *old(self),
    {
        if let SessionState::Idle = self.state {
            let phase = if self.config.lead_up_duration == 0 {
                Phase::Workout
            } else {
                Phase::LeadUp
            };
            let secs = match phase {
                Phase::LeadUp => self.config.lead_up_duration,
                Phase::Workout => self.config.workout_duration,
                Phase::Rest => self.config.rest_duration,
            };
            self.state = SessionState::Running {
                phase,
                duration_ms: secs * MILLIS_PER_SECOND,
                started_at: now,
                base_elapsed_ms: 0,
            };
            self.current_round = 0;
            self.last_now = now;
        }
        Vec::new()
    }

    /// Pauses a running phase, freezing its remaining time as of the most
    /// recent timestamp the scheduler saw.  Ignored while idle or already
    /// paused.  Emits no effects.
    pub fn pause(&mut self) -> (effects: Vec<Effect>)
        requires
            old(self).wf(),
        ensures
            final(self).wf(),
            effects@ == Seq::<Effect>::empty(),
            final(self).state == pause_transition(old(self).state, old(self).last_now),
            final(self).config == old(self).config,
            final(self).current_round == old(self).current_round,
            final(self).fanfare_armed_at == old(self).fanfare_armed_at,
            final(self).last_now == old(self).last_now,
            final(self).state.remaining_ms_at(old(self).last_now) == old(self).state.remaining_ms_at(
                old(self).last_now,
            ),
    {
        if let SessionState::Running { phase, duration_ms, started_at, base_elapsed_ms } =
            self.state {
            let since_start: u64 = if self.last_now >= started_at {
                self.last_now - started_at
            } else {
                0
            };
            let elapsed: u64 = base_elapsed_ms + since_start;
            let remaining_ms: u64 = if elapsed >= duration_ms {
                0
            } else {
                duration_ms - elapsed
            };
            self.state = SessionState::Paused { phase, duration_ms, remaining_ms };
        }
        Vec::new()
    }

    /// Resumes a paused phase at `now` with exactly the remaining time that
    /// was frozen at pause, however long the pause lasted.  Any state other
    /// than paused is an invalid call: the session is left unchanged and the
    /// error reported.
    pub fn resume(&mut self, now: u64) -> (r: Result<Vec<Effect>, InvalidCommand>)
        requires
            old(self).wf(),
            now <= MAX_TIMESTAMP_MILLIS,
        ensures
            final(self).wf(),
            r matches Ok(_) <==> old(self).state matches SessionState::Paused { .. },
            r matches Ok(effects) ==> effects@ == Seq::<Effect>::empty(),
            old(self).state matches SessionState::Paused { .. } ==> {
                &&& final(self).state == resume_transition(old(self).state, now)
                &&& final(self).state.remaining_ms_at(now) == old(self).state.remaining_ms_at(now)
                &&& final(self).config == old(self).config
                &&& final(self).current_round == old(self).current_round
                &&& final(self).fanfare_armed_at == old(self).fanfare_armed_at
                &&& final(self).last_now == now
            },
            !(old(self).state matches SessionState::Paused { .. }) ==> *final(self) == *old(self),
    {
        if let SessionState::Paused { phase, duration_ms, remaining_ms } = self.state {
            self.state = SessionState::Running {
                phase,
                duration_ms,
                started_at: now,
                base_elapsed_ms: duration_ms - remaining_ms,
            };
            self.last_now = now;
            Ok(Vec::new())
        } else {
            Err(InvalidCommand)
        }
    }

    /// Stops the session unconditionally: back to idle, round reset, no
    /// residual phase timing.  A no-op while already idle.  Emits no cue.
    pub fn stop(&mut self) -> (effects: Vec<Effect>)
        requires
            old(self).wf(),
        ensures
            final(self).wf(),
            effects@ == Seq::<Effect>::empty(),
            final(self).state is Idle,
            final(self).current_round == 0,
            final(self).config == old(self).config,
            final(self).fanfare_armed_at == old(self).fanfare_armed_at,
            final(self).last_now == old(self).last_now,
    {
        self.state = SessionState::Idle;
        self.current_round = 0;
        Vec::new()
    }

    /// Replaces the configuration.  A value with any field out of range is
    /// rejected with the first offending field and the prior configuration
    /// is kept.  The session itself never changes: a phase already in
    /// progress keeps the duration captured when it was entered, so its
    /// remaining time is unaffected at every instant.  On success the host
    /// is asked to persist the new value.
    pub fn configure(&mut self, new_config: Configuration) -> (r: Result<
        Vec<Effect>,
        ValidationError,
    >)
        requires
            old(self).wf(),
        ensures
            final(self).wf(),
            final(self).state == old(self).state,
            final(self).current_round == old(self).current_round,
            final(self).fanfare_armed_at == old(self).fanfare_armed_at,
            final(self).last_now == old(self).last_now,
            forall|t: u64| #[trigger]
                final(self).state.remaining_ms_at(t) == old(self).state.remaining_ms_at(t),
            r matches Ok(_) <==> new_config.valid(),
            new_config.valid() ==> ({
                &&& final(self).config == new_config
                &&& r matches Ok(effects)
                &&& effects@ == seq![Effect::SettingsChanged(new_config)]
            }),
            !new_config.valid() ==> final(self).config == old(self).config,
            !new_config.workout_in_range() ==> r == Err::<Vec<Effect>, ValidationError>(
                ValidationError::WorkoutOutOfRange,
            ),
            new_config.workout_in_range() && !new_config.rest_in_range() ==> r == Err::<
                Vec<Effect>,
                ValidationError,
            >(ValidationError::RestOutOfRange),
            new_config.workout_in_range() && new_config.rest_in_range()
                && !new_config.rounds_in_range() ==> r == Err::<Vec<Effect>, ValidationError>(
                ValidationError::RoundsOutOfRange,
            ),
            new_config.workout_in_range() && new_config.rest_in_range()
                && new_config.rounds_in_range() && !new_config.lead_up_in_range() ==> r == Err::<
                Vec<Effect>,
                ValidationError,
            >(ValidationError::LeadUpOutOfRange),
    {
        match new_config.validate() {
            Ok(_) => {
                self.config = new_config;
                let mut effects: Vec<Effect> = Vec::new();
                effects.push(Effect::SettingsChanged(new_config));
                Ok(effects)
            },
            Err(e) => Err(e),
        }
    }

    /// Advances the timer to wall-clock time `now`.
    ///
    /// While a phase is running and fully elapsed, performs exactly one
    /// transition, resetting the phase clock to `now` (any overshoot beyond
    /// the boundary is discarded, as the drift-free design prescribes):
    /// lead-up ends silently into the first workout; a workout ends into a
    /// rest with a `WorkEnd` cue; a rest ends into the next round's workout
    /// with a `RestEnd` cue, or — after the final round — completes the
    /// cycle back to idle with a `Complete` cue and the fanfare.  Idle and
    /// paused sessions are untouched.  Independently, an armed fanfare
    /// expires once its display window has elapsed.
    pub fn tick(&mut self, now: u64) -> (effects: Vec<Effect>)
        requires
            old(self).wf(),
            now <= MAX_TIMESTAMP_MILLIS,
        ensures
            final(self).wf(),
            final(self).config == old(self).config,
            final(self).last_now == now,
            !(old(self).state matches SessionState::Running { .. }) ==> {
                &&& final(self).state == old(self).state
                &&& final(self).current_round == old(self).current_round
                &&& effects@ == Seq::<Effect>::empty()
            },
            old(self).state matches SessionState::Running { .. } && !old(self).phase_expired_at(
                now,
            ) ==> {
                &&& final(self).state == old(self).state
                &&& final(self).current_round == old(self).current_round
                &&& effects@ == Seq::<Effect>::empty()
            },
            old(self).phase_expired_at(now) && (old(self).state matches SessionState::Running {
                phase: Phase::LeadUp,
                ..
            }) ==> {
                &&& final(self).state == fresh_running(old(self).config, Phase::Workout, now)
                &&& final(self).current_round == old(self).current_round
                &&& effects@ == Seq::<Effect>::empty()
            },
            old(self).phase_expired_at(now) && (old(self).state matches SessionState::Running {
                phase: Phase::Workout,
                ..
            }) ==> {
                &&& final(self).state == fresh_running(old(self).config, Phase::Rest, now)
                &&& final(self).current_round == old(self).current_round
                &&& effects@ == seq![Effect::PlayCue(CueKind::WorkEnd)]
            },
            old(self).phase_expired_at(now) && (old(self).state matches SessionState::Running {
                phase: Phase::Rest,
                ..
            }) && old(self).current_round + 1 < old(self).config.rounds ==> {
                &&& final(self).state == fresh_running(old(self).config, Phase::Workout, now)
                &&& final(self).current_round == old(self).current_round + 1
                &&& effects@ == seq![Effect::PlayCue(CueKind::RestEnd)]
            },
            old(self).completes_cycle_at(now) ==> {
                &&& final(self).state is Idle
                &&& final(self).current_round == 0
                &&& effects@ == seq![Effect::PlayCue(CueKind::Complete), Effect::TriggerFanfare]
                &&& final(self).fanfare_armed_at == Some(now)
            },
            !old(self).completes_cycle_at(now) ==> final(self).fanfare_armed_at == (
            if (old(self).fanfare_armed_at matches Some(t) && millis_since(t, now)
                >= FANFARE_WINDOW_MILLIS) {
                None
            } else {
                old(self).fanfare_armed_at
            }),
    {
        let mut effects: Vec<Effect> = Vec::new();
        let mut completed: bool = false;

        if let SessionState::Running { phase, duration_ms, started_at, base_elapsed_ms } =
            self.state {
            let since_start: u64 = if now >= started_at {
                now - started_at
            } else {
                0
            };
            let elapsed: u64 = base_elapsed_ms + since_start;
            if elapsed >= duration_ms {
                match phase {
                    Phase::LeadUp => {
                        self.state = SessionState::Running {
                            phase: Phase::Workout,
                            duration_ms: self.config.workout_duration * MILLIS_PER_SECOND,
                            started_at: now,
                            base_elapsed_ms: 0,
                        };
                    },
                    Phase::Workout => {
                        self.state = SessionState::Running {
                            phase: Phase::Rest,
                            duration_ms: self.config.rest_duration * MILLIS_PER_SECOND,
                            started_at: now,
                            base_elapsed_ms: 0,
                        };
                        effects.push(Effect::PlayCue(CueKind::WorkEnd));
                    },
                    Phase::Rest => {
                        if self.current_round + 1 < self.config.rounds {
                            self.current_round = self.current_round + 1;
                            self.state = SessionState::Running {
                                phase: Phase::Workout,
                                duration_ms: self.config.workout_duration * MILLIS_PER_SECOND,
                                started_at: now,
                                base_elapsed_ms: 0,
                            };
                            effects.push(Effect::PlayCue(CueKind::RestEnd));
                        } else {
                            self.state = SessionState::Idle;
                            self.current_round = 0;
                            self.fanfare_armed_at = Some(now);
                            completed = true;
                            effects.push(Effect::PlayCue(CueKind::Complete));
                            effects.push(Effect::TriggerFanfare);
                        }
                    },
                }
            }
        }
        if !completed {
            if let Some(t) = self.fanfare_armed_at {
                let shown: u64 = if now >= t {
                    now - t
                } else {
                    0
                };
                if shown >= FANFARE_WINDOW_MILLIS {
                    self.fanfare_armed_at = None;
                }
            }
        }
        self.last_now = now;
        effects
    }

    /// The current configuration, for rendering and editing controls.
    pub fn current_config(&self) -> (c: Configuration)
        ensures
            c == self.config,
    {
        self.config
    }

    /// Read-only snapshot for presentation, as of the most recent timestamp
    /// the scheduler saw.
    pub fn snapshot(&self) -> (snap: Snapshot)
        requires
            self.wf(),
        ensures
            snap.state == self.state.display(),
            snap.current_round == self.current_round,
            snap.rounds == self.config.rounds,
            snap.remaining_secs == ceil_millis_to_secs(self.state.remaining_ms_at(self.last_now)),
            snap.progress_permille == self.progress_permille_at(self.last_now),
            snap.progress_permille <= PROGRESS_SCALE,
            snap.fanfare_active == self.fanfare_active_at(self.last_now),
    {
        let (remaining_ms, duration_ms): (u64, u64) = match self.state {
            SessionState::Idle => (0, 0),
            SessionState::Running { duration_ms, started_at, base_elapsed_ms, .. } => {
                let since_start: u64 = if self.last_now >= started_at {
                    self.last_now - started_at
                } else {
                    0
                };
                let elapsed: u64 = base_elapsed_ms + since_start;
                let rem: u64 = if elapsed >= duration_ms {
                    0
                } else {
                    duration_ms - elapsed
                };
                (rem, duration_ms)
            },
            SessionState::Paused { duration_ms, remaining_ms, .. } => (remaining_ms, duration_ms),
        };
        let remaining_secs: u64 = (remaining_ms + (MILLIS_PER_SECOND - 1)) / MILLIS_PER_SECOND;
        let progress_permille: u64 = if duration_ms == 0 {
            0
        } else {
            (duration_ms - remaining_ms) * PROGRESS_SCALE / duration_ms
        };
        proof {
            if duration_ms != 0 {
                let d = duration_ms as int;
                let x = duration_ms - remaining_ms;
                assert(x * PROGRESS_SCALE <= d * PROGRESS_SCALE);
                vstd::arithmetic::div_mod::lemma_div_is_ordered(
                    x * PROGRESS_SCALE,
                    d * PROGRESS_SCALE,
                    d,
                );
                vstd::arithmetic::div_mod::lemma_div_multiples_vanish(PROGRESS_SCALE as int, d);
                assert(d * PROGRESS_SCALE == d * (PROGRESS_SCALE as int));
            }
        }
        let fanfare_active: bool = match self.fanfare_armed_at {
            Some(t) => {
                let shown: u64 = if self.last_now >= t {
                    self.last_now - t
                } else {
                    0
                };
                shown < FANFARE_WINDOW_MILLIS
            },
            None => false,
        };
        let state = match self.state {
            SessionState::Idle => TimerState::Idle,
            SessionState::Running { phase, .. } => match phase {
                Phase::LeadUp => TimerState::LeadUp,
                Phase::Workout => TimerState::Workout,
                Phase::Rest => TimerState::Rest,
            },
            SessionState::Paused { phase, .. } => match phase {
                Phase::LeadUp => TimerState::PausedLeadUp,
                Phase::Workout => TimerState::PausedWorkout,
                Phase::Rest => TimerState::PausedRest,
            },
        };
        Snapshot {
            state,
            current_round: self.current_round,
            rounds: self.config.rounds,
            remaining_secs,
            progress_permille,
            fanfare_active,
        }
    }
}

} // verus!
