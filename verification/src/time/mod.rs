/*!
The time module handles timing and scheduling of events based on simulation time as provided by a simulation clock.
The simulation clock runs on real (wall) clock time, sped up or slowed down by a dilation factor. It operates at
microsecond resolution as an offset from the Unix timestamp, i.e. January 1st 1970 at midnight.
 */
pub mod real_time;
pub mod real_time_sim_clock;
pub mod sim_time;

use vstd::prelude::*;

pub use crate::time::real_time::{TimeDuration, TimeStamp, WallTime};
pub use crate::time::real_time_sim_clock::RealTimeSimClock;
pub use crate::time::sim_time::{SimDuration, SimTime};

verus! {

/// How fast simulation time runs against wall clock time. A factor greater than 1 is faster
/// than real time and one less than 1 is slower than real time; a factor is greater than 0.
///
/// A factor turns whole microseconds into whole microseconds, and what it makes of a number
/// depends on nothing but the factor and the number: `simulated` and `wall` say what that is,
/// and `to_simulated` and `to_real` compute it.
pub trait TimeDilation: Sized {
    /// The factor at which simulation time runs exactly as fast as wall clock time.
    spec fn unit() -> Self;

    /// The microseconds of simulation time that pass in `real_micros` microseconds of wall
    /// clock time.
    spec fn simulated(&self, real_micros: i64) -> i64;

    /// The microseconds of wall clock time that pass in `simulated_micros` microseconds of
    /// simulation time.
    spec fn wall(&self, simulated_micros: i64) -> i64;

    /// The factor at which simulation time runs exactly as fast as wall clock time.
    fn real_time() -> (factor: Self)
        ensures
            factor == Self::unit(),
    ;

    /// The microseconds of simulation time that pass in `real_micros` microseconds of wall
    /// clock time.
    fn to_simulated(&self, real_micros: i64) -> (simulated: i64)
        ensures
            simulated == self.simulated(real_micros),
    ;

    /// The microseconds of wall clock time that pass in `simulated_micros` microseconds of
    /// simulation time.
    fn to_real(&self, simulated_micros: i64) -> (wall: i64)
        ensures
            wall == self.wall(simulated_micros),
    ;
}

/// The dilation of a clock that runs exactly as fast as the wall clock: a microsecond of
/// simulation time passes in each microsecond of wall clock time.
#[derive(Debug, Clone, Copy, PartialEq, Eq, Structural)]
pub struct RealTime;

impl TimeDilation for RealTime {
    open spec fn unit() -> Self {
        RealTime
    }

    open spec fn simulated(&self, real_micros: i64) -> i64 {
        real_micros
    }

    open spec fn wall(&self, simulated_micros: i64) -> i64 {
        simulated_micros
    }

    fn real_time() -> (factor: Self) {
        RealTime
    }

    fn to_simulated(&self, real_micros: i64) -> (simulated: i64) {
        real_micros
    }

    fn to_real(&self, simulated_micros: i64) -> (wall: i64) {
        simulated_micros
    }
}

/// SimClock trait that extends Clock
pub trait SimClock: Clock<Time = SimTime> {
    /// The time dilation factor that the clock runs at.
    type Dilation: TimeDilation;

    /// Start the clock. The clock is paused once started: time is not ticking.
    ///
    /// # Arguments
    ///
    /// * `simulation_start_time` - The wall clock time when the simulation was started. Used to sync
    ///     clocks across services.
    /// * `relative_start_time` - The virtual time of the simulation. Use to have the simulation occur
    ///     on a particular date/time.
    /// * `elapsed_pause_time` - The amount of pause time accumulated
    /// * `time_dilation` - Time dilation factor. Greater than 1 is faster than real time and less
    ///     than 1 is slower than real time.
    fn start(
        &mut self,
        simulation_start_time: WallTime,
        relative_start_time: SimTime,
        elapsed_pause_time: TimeDuration,
        time_dilation: Self::Dilation,
    );

    /// Adjust the time of the underlying clock either forwards or backwards to correct for clock
    /// drift or for time steps.
    ///
    /// # Arguments
    ///
    /// * `by` - The amount to adjust the clock.
    fn offset_by(&mut self, by: TimeDuration);

    /// Pause the simulation clock.
    fn pause(&mut self);

    /// Resume the simulation clock.
    fn resume(&mut self);

    /// Stop the simulation clock.
    fn stop(&mut self);

    /// Return a boolean indicating if the clock is currently paused.
    fn is_paused(&self) -> bool;

    /// Return a boolean indicating if the clock is currently running.
    fn is_running(&self) -> bool;

    /// Return a boolean indicating if the clock is currently stopped.
    fn is_stopped(&self) -> bool;

    /// Return the amount of time elapsed in the simulation excluding paused time.
    fn elapsed(&self) -> SimDuration;
}

/// The `Clock` trait defines a read only interface to the underlying clock that allows its state
/// to be read.
pub trait Clock {
    type Time: Ord + Copy + Send + Sync;

    /// Return the current simulation time.
    fn now(&self) -> Self::Time;

    /// Computes the time between *now* and *then*.
    ///
    /// This is used to estimate the amount of wall clock time the scheduler
    /// can delay before the target time arrives. The delay is never negative, and
    /// it is zero when `then` is not in the future.
    ///
    /// # Arguments
    ///
    /// * `then` - The time to wait until.
    fn delay_time(&self, then: Self::Time) -> TimeDuration;
}

/// The states that the clock may be in.
#[derive(PartialEq, Eq, Debug, Clone, Copy, Structural)]
pub enum ClockState {
    /// The clock is currently moving forward in time
    Running,
    /// The clock is not running
    Stopped,
    /// Time is paused and may resume from the current clock time
    Paused,
}

} // verus!
