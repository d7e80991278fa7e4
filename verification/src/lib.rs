//! Pure state-machine core of an interval workout timer.
//!
//! The library owns all temporal logic of the timer: a validated
//! [`config::Configuration`], and a pollable [`scheduler::Scheduler`] that a
//! host loop drives with `tick(now)` calls and user commands.  The scheduler
//! never performs I/O; it returns [`scheduler::Effect`] values (sound cues,
//! fanfare trigger, settings-changed notifications) that the host executes.

pub mod config;
pub mod laws;
pub mod scheduler;
