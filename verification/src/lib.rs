//! A scheduling core: a time-ordered event scheduler driven by a clock, which reads either
//! real wall clock time or a simulation time that can be paused, resumed, sped up, slowed
//! down and corrected for drift.
//!
//! * [`time`] holds the time values, the clock contracts and the simulation clock that runs
//!   at a multiple of real time.
//! * [`scheduler`] holds the events, the queue of pending events and what the scheduling
//!   actor decides: what a command does to the queue, which events fire at a given time and
//!   in what order, and how long to sleep.
//! * [`error`] holds the errors.
//!
//! Nothing here waits: the actor's loop around these decisions, which receives commands and
//! sleeps, belongs to the runtime that hosts it.
pub mod error;
pub mod scheduler;
pub mod time;
