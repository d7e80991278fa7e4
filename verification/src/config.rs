//! Validated timer configuration: the four tunable parameters, their bounds,
//! their defaults, and the fallback policy used when loading stored settings.

use vstd::prelude::*;

verus! {

/// Smallest accepted workout phase length, in seconds.
pub const MIN_WORKOUT_SECS: u64 = 2;
/// Largest accepted workout phase length, in seconds.
pub const MAX_WORKOUT_SECS: u64 = 180;
/// Smallest accepted rest phase length, in seconds.
pub const MIN_REST_SECS: u64 = 2;
/// Largest accepted rest phase length, in seconds.
pub const MAX_REST_SECS: u64 = 90;
/// Smallest accepted round count.
pub const MIN_ROUNDS: u32 = 1;
/// Largest accepted round count.
pub const MAX_ROUNDS: u32 = 50;
/// Largest accepted lead-up delay, in seconds (the smallest is zero).
pub const MAX_LEAD_UP_SECS: u64 = 10;

/// Default workout phase length, in seconds.
pub const DEFAULT_WORKOUT_SECS: u64 = 60;
/// Default rest phase length, in seconds.
pub const DEFAULT_REST_SECS: u64 = 45;
/// Default round count.
pub const DEFAULT_ROUNDS: u32 = 10;
/// Default lead-up delay, in seconds.
pub const DEFAULT_LEAD_UP_SECS: u64 = 5;

/// The four tunable timer parameters.  Durations are integer seconds.
///
/// A `Configuration` accepted by [`Configuration::validate`] satisfies
/// [`Configuration::valid`]; the scheduler only ever stores such values.
#[derive(Clone, Copy, Debug, PartialEq, Eq, Structural)]
pub struct Configuration {
    /// Length of each workout phase, in seconds.
    pub workout_duration: u64,
    /// Length of each rest phase, in seconds.
    pub rest_duration: u64,
    /// Number of workout/rest rounds in a cycle.
    pub rounds: u32,
    /// One-time delay before the first workout phase, in seconds.
    pub lead_up_duration: u64,
}

/// A configuration field lies outside its allowed range.  The attempted
/// update is rejected and the prior configuration is kept.
#[derive(Clone, Copy, Debug, PartialEq, Eq, Structural)]
pub enum ValidationError {
    WorkoutOutOfRange,
    RestOutOfRange,
    RoundsOutOfRange,
    LeadUpOutOfRange,
}

impl Configuration {
    /// The workout duration lies within its allowed range.
    pub open spec fn workout_in_range(self) -> bool {
        MIN_WORKOUT_SECS <= self.workout_duration <= MAX_WORKOUT_SECS
    }

    /// The rest duration lies within its allowed range.
    pub open spec fn rest_in_range(self) -> bool {
        MIN_REST_SECS <= self.rest_duration <= MAX_REST_SECS
    }

    /// The round count lies within its allowed range.
    pub open spec fn rounds_in_range(self) -> bool {
        MIN_ROUNDS <= self.rounds <= MAX_ROUNDS
    }

    /// The lead-up delay lies within its allowed range.
    pub open spec fn lead_up_in_range(self) -> bool {
        self.lead_up_duration <= MAX_LEAD_UP_SECS
    }

    /// All four fields lie within their allowed ranges.
    pub open spec fn valid(self) -> bool {
        &&& self.workout_in_range()
        &&& self.rest_in_range()
        &&& self.rounds_in_range()
        &&& self.lead_up_in_range()
    }

    /// The default configuration, as a spec value.
    pub open spec fn default_spec() -> Configuration {
        Configuration {
            workout_duration: DEFAULT_WORKOUT_SECS,
            rest_duration: DEFAULT_REST_SECS,
            rounds: DEFAULT_ROUNDS,
            lead_up_duration: DEFAULT_LEAD_UP_SECS,
        }
    }

    /// Checks every field against its bounds.  Returns `Ok` exactly when the
    /// whole configuration is valid; otherwise reports the first field out of
    /// range, in the order workout, rest, rounds, lead-up.
    pub fn validate(&self) -> (r: Result<(), ValidationError>)
        ensures
            r matches Ok(_) <==> self.valid(),
            !self.workout_in_range() ==> r == Err::<(), ValidationError>(
                ValidationError::WorkoutOutOfRange,
            ),
            self.workout_in_range() && !self.rest_in_range() ==> r == Err::<(), ValidationError>(
                ValidationError::RestOutOfRange,
            ),
            self.workout_in_range() && self.rest_in_range() && !self.rounds_in_range() ==> r
                == Err::<(), ValidationError>(ValidationError::RoundsOutOfRange),
            self.workout_in_range() && self.rest_in_range() && self.rounds_in_range()
                && !self.lead_up_in_range() ==> r == Err::<(), ValidationError>(
                ValidationError::LeadUpOutOfRange,
            ),
    {
        if self.workout_duration < MIN_WORKOUT_SECS || self.workout_duration > MAX_WORKOUT_SECS {
            Err(ValidationError::WorkoutOutOfRange)
        } else if self.rest_duration < MIN_REST_SECS || self.rest_duration > MAX_REST_SECS {
            Err(ValidationError::RestOutOfRange)
        } else if self.rounds < MIN_ROUNDS || self.rounds > MAX_ROUNDS {
            Err(ValidationError::RoundsOutOfRange)
        } else if self.lead_up_duration > MAX_LEAD_UP_SECS {
            Err(ValidationError::LeadUpOutOfRange)
        } else {
            Ok(())
        }
    }

    /// Builds a configuration from possibly missing stored fields: a field
    /// that is absent or out of range falls back to its default.  Used when
    /// loading persisted settings, so a corrupted or partial store never
    /// yields an invalid configuration.
    pub fn from_partial(
        workout: Option<u64>,
        rest: Option<u64>,
        rounds: Option<u32>,
        lead_up: Option<u64>,
    ) -> (c: Configuration)
        ensures
            c.valid(),
            c.workout_duration == duration_or_default(
                workout,
                MIN_WORKOUT_SECS,
                MAX_WORKOUT_SECS,
                DEFAULT_WORKOUT_SECS,
            ),
            c.rest_duration == duration_or_default(
                rest,
                MIN_REST_SECS,
                MAX_REST_SECS,
                DEFAULT_REST_SECS,
            ),
            c.rounds == rounds_or_default(rounds),
            c.lead_up_duration == duration_or_default(lead_up, 0, MAX_LEAD_UP_SECS, DEFAULT_LEAD_UP_SECS),
    {
        let workout_duration = match workout {
            Some(w) => if MIN_WORKOUT_SECS <= w && w <= MAX_WORKOUT_SECS {
                w
            } else {
                DEFAULT_WORKOUT_SECS
            },
            None => DEFAULT_WORKOUT_SECS,
        };
        let rest_duration = match rest {
            Some(r) => if MIN_REST_SECS <= r && r <= MAX_REST_SECS {
                r
            } else {
                DEFAULT_REST_SECS
            },
            None => DEFAULT_REST_SECS,
        };
        let rounds = match rounds {
            Some(n) => if MIN_ROUNDS <= n && n <= MAX_ROUNDS {
                n
            } else {
                DEFAULT_ROUNDS
            },
            None => DEFAULT_ROUNDS,
        };
        let lead_up_duration = match lead_up {
            Some(l) => if l <= MAX_LEAD_UP_SECS {
                l
            } else {
                DEFAULT_LEAD_UP_SECS
            },
            None => DEFAULT_LEAD_UP_SECS,
        };
        Configuration { workout_duration, rest_duration, rounds, lead_up_duration }
    }
}

/// The stored duration if present and within `[min, max]`, else the default.
pub open spec fn duration_or_default(v: Option<u64>, min: u64, max: u64, default: u64) -> u64 {
    match v {
        Some(x) => if min <= x <= max {
            x
        } else {
            default
        },
        None => default,
    }
}

/// The stored round count if present and within bounds, else the default.
pub open spec fn rounds_or_default(v: Option<u32>) -> u32 {
    match v {
        Some(n) => if MIN_ROUNDS <= n <= MAX_ROUNDS {
            n
        } else {
            DEFAULT_ROUNDS
        },
        None => DEFAULT_ROUNDS,
    }
}

impl Default for Configuration {
    /// The configuration used when no stored settings exist.
    fn default() -> (c: Configuration)
        ensures
            c == Configuration::default_spec(),
            c.valid(),
    {
        Configuration {
            workout_duration: DEFAULT_WORKOUT_SECS,
            rest_duration: DEFAULT_REST_SECS,
            rounds: DEFAULT_ROUNDS,
            lead_up_duration: DEFAULT_LEAD_UP_SECS,
        }
    }
}

} // verus!
