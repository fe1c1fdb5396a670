//! This module contains a simulation clock that operates on a multiple of real time.
//! At a dilation of 1 it operates at a 1 to 1 scale, but it can be sped up or slowed down.
//!
use vstd::prelude::*;

use crate::time::real_time::{
    clamp_duration, clamp_wall, DURATION_MAX_MICROS, WALL_MAX_MICROS, WALL_MIN_MICROS,
};
use crate::time::{
    Clock, ClockState, RealTime, SimClock, SimDuration, SimTime, TimeDilation, TimeDuration,
    WallTime,
};

verus! {

/// What the contracts say of a clock. Wall clock instants are microseconds since the Unix
/// epoch, simulation times are microseconds since the simulation epoch, durations are
/// microseconds.
pub struct ClockView {
    /// The wall clock instant at which the simulation started.
    pub simulation_start: int,
    /// The simulation time that the clock reports for that instant.
    pub relative_start: nat,
    /// The wall clock time spent in pauses that have ended.
    pub paused: int,
    /// The state of the clock.
    pub state: ClockState,
    /// The wall clock instant at which the pause that is under way began, if one is.
    pub pause_start: Option<int>,
}

/// `x` brought into the range of a signed 64-bit number.
pub open spec fn clamp_i64(x: int) -> int {
    if x < i64::MIN {
        i64::MIN as int
    } else if x > i64::MAX {
        i64::MAX as int
    } else {
        x
    }
}

/// `x` brought into the range of a simulation time.
pub open spec fn clamp_sim(x: int) -> nat {
    if x < 0 {
        0
    } else if x > u64::MAX {
        u64::MAX as nat
    } else {
        x as nat
    }
}

/// How long the pause that is under way has lasted at the wall clock instant `rt_now`;
/// zero where none is under way.
pub open spec fn current_pause(clock: ClockView, rt_now: int) -> int {
    match clock.pause_start {
        Some(since) => rt_now - since,
        None => 0,
    }
}

/// The wall clock time for which the simulation has run at the instant `rt_now`: the time
/// since its start, without the pauses that have ended and without the one under way.
pub open spec fn execution_micros(clock: ClockView, rt_now: int) -> int {
    rt_now - clock.simulation_start - clock.paused - current_pause(clock, rt_now)
}

/// The run time that is handed to the dilation factor at the instant `rt_now`.
pub open spec fn real_micros(clock: ClockView, rt_now: int) -> int {
    clamp_i64(execution_micros(clock, rt_now))
}

/// The simulation time once `simulated` microseconds of simulation time have passed.
pub open spec fn sim_micros(clock: ClockView, simulated: int) -> nat {
    clamp_sim(clock.relative_start + simulated)
}

/// The simulation time that has passed at the simulation time `now` since the relative
/// start; none before it.
pub open spec fn elapsed_micros(clock: ClockView, now: nat) -> int {
    if now >= clock.relative_start {
        now - clock.relative_start
    } else {
        0
    }
}

/// The clock after `start` at the wall clock instant `rt_now`.
pub open spec fn started_at(
    simulation_start: int,
    relative_start: nat,
    elapsed_pause: int,
    rt_now: int,
) -> ClockView {
    ClockView {
        simulation_start,
        relative_start,
        paused: elapsed_pause,
        state: ClockState::Paused,
        pause_start: Some(rt_now),
    }
}

/// The clock after `pause` at the wall clock instant `rt_now`. A clock that is paused
/// already stays as it is, so that the time it has been paused for is not lost.
pub open spec fn paused_at(clock: ClockView, rt_now: int) -> ClockView {
    if clock.state == ClockState::Paused {
        clock
    } else {
        ClockView { state: ClockState::Paused, pause_start: Some(rt_now), ..clock }
    }
}

/// The clock after `resume` at the wall clock instant `rt_now`: the pause under way is
/// added to the paused time. Where none is under way nothing is added.
pub open spec fn resumed_at(clock: ClockView, rt_now: int) -> ClockView {
    ClockView {
        paused: clamp_duration(clock.paused + current_pause(clock, rt_now)),
        state: ClockState::Running,
        pause_start: None,
        ..clock
    }
}

/// The clock after `stop` at the wall clock instant `rt_now`.
pub open spec fn stopped_at(clock: ClockView, rt_now: int) -> ClockView {
    ClockView { state: ClockState::Stopped, pause_start: Some(rt_now), ..clock }
}

/// The clock after `offset_by`: its start is moved by `by` microseconds, as far as the
/// calendar reaches.
pub open spec fn shifted_by(clock: ClockView, by: int) -> ClockView {
    ClockView { simulation_start: clamp_wall(clock.simulation_start + by), ..clock }
}

/// How far `then` lies ahead of `now`, as the dilation factor gets it: microseconds in a
/// signed 64-bit number, and none where `then` is not ahead.
pub open spec fn gap_micros(now: nat, then: nat) -> int {
    if then > now {
        clamp_i64(then - now)
    } else {
        0
    }
}

/// The wait for a simulation time that lies `gap` microseconds ahead, where the dilation
/// factor turns the gap into `wall` microseconds of wall clock time: those microseconds,
/// and no wait where nothing lies ahead or the factor gives nothing.
pub open spec fn wait_micros(gap: int, wall: int) -> int {
    if gap > 0 && wall > 0 {
        wall
    } else {
        0
    }
}

/// The simulation time at the wall clock instant `rt_now`: what `factor` makes of the run
/// time at that instant, after the relative start.
pub open spec fn now_micros<D: TimeDilation>(clock: ClockView, rt_now: int, factor: D) -> nat {
    sim_micros(clock, factor.simulated(real_micros(clock, rt_now) as i64) as int)
}

/// The wait for `then` at the wall clock instant `rt_now`: what `factor` makes of the gap
/// between the simulation time at that instant and `then`.
pub open spec fn delay_micros<D: TimeDilation>(
    clock: ClockView,
    then: nat,
    rt_now: int,
    factor: D,
) -> int {
    let gap = gap_micros(now_micros(clock, rt_now, factor), then);
    wait_micros(gap, factor.wall(gap as i64) as int)
}

/// A pause is under way exactly while the clock does not run.
pub open spec fn is_consistent(clock: ClockView) -> bool {
    clock.state == ClockState::Running <==> clock.pause_start is None
}

/// `factor` never gives less for more.
pub open spec fn never_decreases<D: TimeDilation>(factor: D) -> bool {
    &&& forall|x: i64, y: i64| x <= y ==> #[trigger] factor.simulated(x) <= #[trigger] factor.simulated(y)
    &&& forall|x: i64, y: i64| x <= y ==> #[trigger] factor.wall(x) <= #[trigger] factor.wall(y)
}

/// The state of the clock together with the wall clock time at which the pause under way
/// began: a running clock has none, and a clock that does not run has one.
enum Phase {
    Running,
    Paused(WallTime),
    Stopped(WallTime),
}

impl Phase {
    spec fn state(self) -> ClockState {
        match self {
            Phase::Running => ClockState::Running,
            Phase::Paused(_) => ClockState::Paused,
            Phase::Stopped(_) => ClockState::Stopped,
        }
    }

    spec fn pause_start(self) -> Option<int> {
        match self {
            Phase::Running => None,
            Phase::Paused(since) => Some(since@),
            Phase::Stopped(since) => Some(since@),
        }
    }

    /// The wall clock time at which the pause under way began.
    fn since(&self) -> (since: Option<WallTime>)
        ensures
            match since {
                Some(instant) => self.pause_start() == Some(instant@),
                None => self.pause_start() is None,
            },
    {
        match self {
            Phase::Running => None,
            Phase::Paused(since) => Some(*since),
            Phase::Stopped(since) => Some(*since),
        }
    }
}

/// `RealTimeSimClock` is a simulation clock that operates at a multiple of real time.
pub struct RealTimeSimClock<D: TimeDilation> {
    /// start time of the simulation
    simulation_start_time: WallTime,
    /// Reported start time of the simulation. Used to offset the reported time to some arbitrary start time.
    relative_start_time: SimTime,
    /// Total paused time.
    paused_time: TimeDuration,
    /// Used to run at a non-real-time speed. Values > 1 indicate faster than real-time factor and < 1 indicate slow down
    /// factor. Value must be > 0.
    time_dilation: D,
    /// Current state of the clock, with the wall clock time that pause began.
    phase: Phase,
}

impl<D: TimeDilation> View for RealTimeSimClock<D> {
    type V = ClockView;

    closed spec fn view(&self) -> ClockView {
        ClockView {
            simulation_start: self.simulation_start_time@,
            relative_start: self.relative_start_time@,
            paused: self.paused_time@,
            state: self.phase.state(),
            pause_start: self.phase.pause_start(),
        }
    }
}

impl<D: TimeDilation> RealTimeSimClock<D> {
    /// The dilation factor that the clock runs at.
    pub closed spec fn dilation(&self) -> D {
        self.time_dilation
    }

    /// Return the simulation start value passed from the controller
    pub fn simulation_start_time(&self) -> (start: WallTime)
        ensures
            start@ == self@.simulation_start,
    {
        self.simulation_start_time
    }

    /// Return the accumulated time spent paused
    pub fn pause_time(&self) -> (paused: TimeDuration)
        ensures
            paused@ == self@.paused,
    {
        self.paused_time
    }

    /// A stopped clock whose simulation starts at the wall clock instant `rt_now` and at
    /// simulation time zero, at the dilation given. It stands still from that instant on.
    pub fn new_at(rt_now: WallTime, time_dilation: D) -> (clock: Self)
        ensures
            clock@ == (ClockView {
                simulation_start: rt_now@,
                relative_start: 0,
                paused: 0,
                state: ClockState::Stopped,
                pause_start: Some(rt_now@),
            }),
            clock.dilation() == time_dilation,
    {
        Self {
            simulation_start_time: rt_now,
            relative_start_time: SimTime::zero(),
            paused_time: TimeDuration::zero(),
            time_dilation,
            phase: Phase::Stopped(rt_now),
        }
    }

    /// A pause is under way exactly while the clock does not run.
    pub proof fn lemma_is_consistent(&self)
        ensures
            is_consistent(self@),
    {
    }

    /// A clock that is paused or stopped shows the same simulation time at any two wall
    /// clock instants.
    pub proof fn lemma_stands_still(&self, rt1: int, rt2: int)
        requires
            self@.state != ClockState::Running,
        ensures
            now_micros(self@, rt1, self.dilation()) == now_micros(self@, rt2, self.dilation()),
            forall|then: nat|
                delay_micros(self@, then, rt1, self.dilation()) == delay_micros(
                    self@,
                    then,
                    rt2,
                    self.dilation(),
                ),
    {
        lemma_time_stands_still(self@, rt1, rt2, self.dilation());
    }

    /// The wall clock time for which the simulation has run at the instant `rt_now`,
    /// brought into the range of a duration.
    pub fn execution_time_at(&self, rt_now: WallTime) -> (run: TimeDuration)
        ensures
            run@ == clamp_duration(execution_micros(self@, rt_now@)),
    {
        let now: i128 = rt_now.timestamp_micros() as i128;
        let start: i128 = self.simulation_start_time.timestamp_micros() as i128;
        let paused: i128 = self.paused_time.total_microseconds();
        let pause: i128 = match self.phase.since() {
            Some(since) => now - since.timestamp_micros() as i128,
            None => 0,
        };
        TimeDuration::saturating_from_micros(now - start - paused - pause)
    }

    /// The run time at the instant `rt_now` as the dilation factor gets it: microseconds
    /// in a signed 64-bit number.
    pub fn real_micros_at(&self, rt_now: WallTime) -> (micros: i64)
        ensures
            micros == real_micros(self@, rt_now@),
    {
        let run: i128 = self.execution_time_at(rt_now).total_microseconds();
        if run < i64::MIN as i128 {
            i64::MIN
        } else if run > i64::MAX as i128 {
            i64::MAX
        } else {
            run as i64
        }
    }

    /// The simulation time once `simulated` microseconds of simulation time have passed
    /// since the start: the relative start time moved by them, and the first or the last
    /// simulation time where that would lie outside.
    pub fn sim_time_after(&self, simulated: i64) -> (time: SimTime)
        ensures
            time@ == sim_micros(self@, simulated as int),
    {
        let sum: i128 = self.relative_start_time.as_micros() as i128 + simulated as i128;
        if sum < 0 {
            SimTime::zero()
        } else if sum > u64::MAX as i128 {
            SimTime::from_micros(u64::MAX)
        } else {
            SimTime::from_micros(sum as u64)
        }
    }

    /// The simulation time at the wall clock instant `rt_now`: the run time at that instant,
    /// turned into simulation time by the dilation factor, after the relative start time.
    pub fn now_at(&self, rt_now: WallTime) -> (time: SimTime)
        ensures
            time@ == now_micros(self@, rt_now@, self.dilation()),
    {
        let simulated: i64 = self.time_dilation.to_simulated(self.real_micros_at(rt_now));
        self.sim_time_after(simulated)
    }

    /// The wait for a simulation time that lies `gap` ahead, where the dilation factor turns
    /// the gap into `real_micros` microseconds of wall clock time: those microseconds, and
    /// no wait where nothing lies ahead or the factor gives nothing.
    pub fn wait_for(gap: SimDuration, real_micros: i64) -> (wait: TimeDuration)
        ensures
            wait@ == wait_micros(gap@, real_micros as int),
    {
        if gap.total_microseconds() > 0 && real_micros > 0 {
            TimeDuration::microseconds(real_micros)
        } else {
            TimeDuration::zero()
        }
    }

    /// The wall clock time to wait at simulation time `now` until `then` arrives: what the
    /// dilation factor makes of the gap between the two. It is never negative, and zero
    /// where `then` is not in the future.
    pub fn delay_between(&self, now: SimTime, then: SimTime) -> (wait: TimeDuration)
        ensures
            wait@ == wait_micros(
                gap_micros(now@, then@),
                self.dilation().wall(gap_micros(now@, then@) as i64) as int,
            ),
            wait@ >= 0,
            then@ <= now@ ==> wait@ == 0,
    {
        let gap: SimDuration = then - now;
        let ahead: i128 = gap.total_microseconds();
        if ahead > 0 {
            let handed: i64 = if ahead > i64::MAX as i128 {
                i64::MAX
            } else {
                ahead as i64
            };
            let real_micros: i64 = self.time_dilation.to_real(handed);
            Self::wait_for(gap, real_micros)
        } else {
            TimeDuration::zero()
        }
    }

    /// The wall clock time to wait at the wall clock instant `rt_now` until the simulation
    /// time `then` arrives.
    pub fn delay_time_at(&self, then: SimTime, rt_now: WallTime) -> (wait: TimeDuration)
        ensures
            wait@ == delay_micros(self@, then@, rt_now@, self.dilation()),
            wait@ >= 0,
    {
        let now: SimTime = self.now_at(rt_now);
        self.delay_between(now, then)
    }

    /// The simulation time that has passed at simulation time `now` since the relative start.
    pub fn elapsed_since_start(&self, now: SimTime) -> (elapsed: SimDuration)
        ensures
            elapsed@ == elapsed_micros(self@, now@),
    {
        now - self.relative_start_time
    }

    /// The simulation time that has passed at the wall clock instant `rt_now` since the
    /// relative start.
    pub fn elapsed_at(&self, rt_now: WallTime) -> (elapsed: SimDuration)
        ensures
            elapsed@ == elapsed_micros(self@, now_micros(self@, rt_now@, self.dilation())),
    {
        let now: SimTime = self.now_at(rt_now);
        self.elapsed_since_start(now)
    }

    /// `start` at the wall clock instant `rt_now`.
    pub fn start_at(
        &mut self,
        simulation_start_time: WallTime,
        relative_start_time: SimTime,
        elapsed_pause_time: TimeDuration,
        time_dilation: D,
        rt_now: WallTime,
    )
        ensures
            final(self)@ == started_at(
                simulation_start_time@,
                relative_start_time@,
                elapsed_pause_time@,
                rt_now@,
            ),
            final(self).dilation() == time_dilation,
    {
        self.simulation_start_time = simulation_start_time;
        self.relative_start_time = relative_start_time;
        self.paused_time = elapsed_pause_time;
        self.time_dilation = time_dilation;
        self.phase = Phase::Paused(rt_now);
    }

    /// `pause` at the wall clock instant `rt_now`.
    pub fn pause_at(&mut self, rt_now: WallTime)
        ensures
            final(self)@ == paused_at(old(self)@, rt_now@),
            final(self).dilation() == old(self).dilation(),
    {
        match self.phase {
            Phase::Paused(_) => {},
            _ => {
                self.phase = Phase::Paused(rt_now);
            },
        }
    }

    /// `resume` at the wall clock instant `rt_now`.
    pub fn resume_at(&mut self, rt_now: WallTime)
        ensures
            final(self)@ == resumed_at(old(self)@, rt_now@),
            final(self).dilation() == old(self).dilation(),
    {
        let pause: i128 = match self.phase.since() {
            Some(since) => rt_now.timestamp_micros() as i128 - since.timestamp_micros() as i128,
            None => 0,
        };
        let paused: i128 = self.paused_time.total_microseconds();
        self.paused_time = TimeDuration::saturating_from_micros(paused + pause);
        self.phase = Phase::Running;
    }

    /// `stop` at the wall clock instant `rt_now`.
    pub fn stop_at(&mut self, rt_now: WallTime)
        ensures
            final(self)@ == stopped_at(old(self)@, rt_now@),
            final(self).dilation() == old(self).dilation(),
    {
        self.phase = Phase::Stopped(rt_now);
    }
}

impl<D: TimeDilation> Default for RealTimeSimClock<D> {
    /// A stopped clock whose simulation starts now and at simulation time zero, running as
    /// fast as the wall clock once it is resumed. It stands still from now on.
    fn default() -> (clock: Self)
        ensures
            WALL_MIN_MICROS <= clock@.simulation_start <= WALL_MAX_MICROS,
            clock@.relative_start == 0,
            clock@.paused == 0,
            clock@.state == ClockState::Stopped,
            clock@.pause_start == Some(clock@.simulation_start),
            clock.dilation() == D::unit(),
    {
        Self::new_at(WallTime::now(), D::real_time())
    }
}

impl<D: TimeDilation> Clock for RealTimeSimClock<D> {
    type Time = SimTime;

    /// The simulation time at this moment of the wall clock: what the dilation factor makes
    /// of the run time, after the relative start time.
    fn now(&self) -> (time: SimTime)
        ensures
            exists|rt_now: WallTime|
                rt_now.is_valid() && time@ == #[trigger] now_micros(
                    self@,
                    rt_now@,
                    self.dilation(),
                ),
    {
        self.now_at(WallTime::now())
    }

    /// Calculates the delay time for a future event, taking into account the current time dilation factor.
    /// This method is useful for determining how long to wait in real-time for an event that is scheduled
    /// in simulation time.
    ///
    /// # Arguments
    /// * `then` - The future simulation time at which an event is scheduled to occur.
    ///
    /// # Returns
    /// The real-time duration that corresponds to the delay until the event, adjusted for the current time dilation.
    fn delay_time(&self, then: SimTime) -> (wait: TimeDuration)
        ensures
            wait@ >= 0,
            exists|rt_now: WallTime|
                rt_now.is_valid() && wait@ == #[trigger] delay_micros(
                    self@,
                    then@,
                    rt_now@,
                    self.dilation(),
                ),
    {
        self.delay_time_at(then, WallTime::now())
    }
}

impl<D: TimeDilation> SimClock for RealTimeSimClock<D> {
    type Dilation = D;

    /// Initializes or resets the clock with specified start times and settings.
    /// This clock is created paused (time is not ticking).
    fn start(
        &mut self,
        simulation_start_time: WallTime,
        relative_start_time: SimTime,
        elapsed_pause_time: TimeDuration,
        time_dilation: D,
    )
        ensures
            exists|rt_now: WallTime|
                rt_now.is_valid() && final(self)@ == #[trigger] started_at(
                    simulation_start_time@,
                    relative_start_time@,
                    elapsed_pause_time@,
                    rt_now@,
                ),
            final(self).dilation() == time_dilation,
    {
        let rt_now = WallTime::now();
        self.start_at(
            simulation_start_time,
            relative_start_time,
            elapsed_pause_time,
            time_dilation,
            rt_now,
        );
    }

    /// Adjusts the simulation start time by a specified duration. This can be used to move the simulation's
    /// start time forward, effectively shifting when the simulated events occur. A start time that
    /// would leave the calendar stays at the end of it.
    fn offset_by(&mut self, by: TimeDuration)
        ensures
            final(self)@ == shifted_by(old(self)@, by@),
            final(self).dilation() == old(self).dilation(),
    {
        self.simulation_start_time = self.simulation_start_time.saturating_add(by);
    }

    /// Pauses the simulation clock. This method records the current time as the pause start time, effectively
    /// stopping the advancement of the simulation time until `resume` is called.
    fn pause(&mut self)
        ensures
            exists|rt_now: WallTime|
                rt_now.is_valid() && final(self)@ == #[trigger] paused_at(old(self)@, rt_now@),
            final(self).dilation() == old(self).dilation(),
    {
        let rt_now = WallTime::now();
        self.pause_at(rt_now);
    }

    /// Resumes the simulation clock from a paused state. This method calculates the total duration of the pause
    /// and adds it to the total paused time, allowing the simulation to continue from where it left off.
    fn resume(&mut self)
        ensures
            exists|rt_now: WallTime|
                rt_now.is_valid() && final(self)@ == #[trigger] resumed_at(old(self)@, rt_now@),
            final(self).dilation() == old(self).dilation(),
    {
        let rt_now = WallTime::now();
        self.resume_at(rt_now);
    }

    /// Stops the simulation clock. This is similar to pausing but intended to signal a more permanent halt.
    /// The clock records the current time as the stop time, and the simulation's state is set to `Stopped`.
    fn stop(&mut self)
        ensures
            exists|rt_now: WallTime|
                rt_now.is_valid() && final(self)@ == #[trigger] stopped_at(old(self)@, rt_now@),
            final(self).dilation() == old(self).dilation(),
    {
        let rt_now = WallTime::now();
        self.stop_at(rt_now);
    }

    /// Calculates the elapsed time since the simulation started, accounting for any paused duration.
    ///
    /// # Returns
    /// The total elapsed time as `Duration`, excluding any periods during which the clock was paused.
    fn elapsed(&self) -> (elapsed: SimDuration)
        ensures
            elapsed@ >= 0,
            exists|rt_now: WallTime|
                rt_now.is_valid() && elapsed@ == elapsed_micros(
                    self@,
                    #[trigger] now_micros(self@, rt_now@, self.dilation()),
                ),
    {
        self.elapsed_at(WallTime::now())
    }

    /// Checks if the simulation clock is currently paused.
    ///
    /// # Returns
    /// `true` if the clock is in the `Paused` state, `false` otherwise.
    fn is_paused(&self) -> (b: bool)
        ensures
            b == (self@.state == ClockState::Paused),
    {
        match self.phase {
            Phase::Paused(_) => true,
            _ => false,
        }
    }

    /// Checks if the simulation clock is currently running.
    ///
    /// # Returns
    /// `true` if the clock is in the `Running` state, `false` otherwise.
    fn is_running(&self) -> (b: bool)
        ensures
            b == (self@.state == ClockState::Running),
    {
        match self.phase {
            Phase::Running => true,
            _ => false,
        }
    }

    /// Checks if the simulation clock has been stopped.
    ///
    /// # Returns
    /// `true` if the clock is in the `Stopped` state, `false` otherwise.
    fn is_stopped(&self) -> (b: bool)
        ensures
            b == (self@.state == ClockState::Stopped),
    {
        match self.phase {
            Phase::Stopped(_) => true,
            _ => false,
        }
    }
}

/// Starting, pausing, resuming, stopping and offsetting keep a clock consistent.
pub proof fn lemma_stays_consistent(
    clock: ClockView,
    rt_now: int,
    by: int,
    simulation_start: int,
    relative_start: nat,
    elapsed_pause: int,
)
    requires
        is_consistent(clock),
    ensures
        is_consistent(started_at(simulation_start, relative_start, elapsed_pause, rt_now)),
        is_consistent(paused_at(clock, rt_now)),
        is_consistent(resumed_at(clock, rt_now)),
        is_consistent(stopped_at(clock, rt_now)),
        is_consistent(shifted_by(clock, by)),
{
}

/// While a pause is under way time stands still: at any two wall clock instants the run
/// time is the same, and so is the simulation time, whatever the dilation factor. Every
/// clock that is paused or stopped is in that state.
pub proof fn lemma_time_stands_still<D: TimeDilation>(
    clock: ClockView,
    rt1: int,
    rt2: int,
    factor: D,
)
    requires
        clock.pause_start is Some || (is_consistent(clock) && clock.state
            != ClockState::Running),
    ensures
        execution_micros(clock, rt1) == execution_micros(clock, rt2),
        real_micros(clock, rt1) == real_micros(clock, rt2),
        now_micros(clock, rt1, factor) == now_micros(clock, rt2, factor),
        elapsed_micros(clock, now_micros(clock, rt1, factor)) == elapsed_micros(
            clock,
            now_micros(clock, rt2, factor),
        ),
        forall|then: nat|
            delay_micros(clock, then, rt1, factor) == delay_micros(clock, then, rt2, factor),
{
}

/// Pausing a running clock at `paused_from` and resuming it at `resumed` adds the wall
/// clock time in between to the paused time and leaves it out of the run time: at every
/// instant afterwards the clock shows what it would have shown that much earlier, had it
/// never been paused. While the pause lasts the run time is what it was when the pause
/// began. This holds as long as the paused time stays a duration.
pub proof fn lemma_pause_is_left_out<D: TimeDilation>(
    clock: ClockView,
    paused_from: int,
    resumed: int,
    rt_now: int,
    factor: D,
)
    requires
        clock.state == ClockState::Running,
        clock.pause_start is None,
        paused_from <= resumed,
        -DURATION_MAX_MICROS <= clock.paused + (resumed - paused_from) <= DURATION_MAX_MICROS,
    ensures
        resumed_at(paused_at(clock, paused_from), resumed).paused == clock.paused + (resumed
            - paused_from),
        resumed_at(paused_at(clock, paused_from), resumed).paused >= clock.paused,
        resumed_at(paused_at(clock, paused_from), resumed).state == ClockState::Running,
        execution_micros(paused_at(clock, paused_from), rt_now) == execution_micros(
            clock,
            paused_from,
        ),
        execution_micros(resumed_at(paused_at(clock, paused_from), resumed), rt_now)
            == execution_micros(clock, rt_now) - (resumed - paused_from),
        now_micros(resumed_at(paused_at(clock, paused_from), resumed), rt_now, factor)
            == now_micros(clock, rt_now - (resumed - paused_from), factor),
        elapsed_micros(
            resumed_at(paused_at(clock, paused_from), resumed),
            now_micros(resumed_at(paused_at(clock, paused_from), resumed), rt_now, factor),
        ) == elapsed_micros(clock, now_micros(clock, rt_now - (resumed - paused_from), factor)),
{
}

/// The simulation time never goes back as the wall clock advances, the wait for `then`
/// never grows, and there is none once `then` is not in the future. This holds for every
/// dilation factor whose conversions never give less for more.
pub proof fn lemma_delay_shrinks<D: TimeDilation>(
    clock: ClockView,
    then: nat,
    rt1: int,
    rt2: int,
    factor: D,
)
    requires
        rt1 <= rt2,
        never_decreases(factor),
    ensures
        now_micros(clock, rt1, factor) <= now_micros(clock, rt2, factor),
        delay_micros(clock, then, rt2, factor) <= delay_micros(clock, then, rt1, factor),
        delay_micros(clock, then, rt1, factor) >= 0,
        then <= now_micros(clock, rt1, factor) ==> delay_micros(clock, then, rt1, factor) == 0,
{
    let real1 = real_micros(clock, rt1) as i64;
    let real2 = real_micros(clock, rt2) as i64;
    assert(execution_micros(clock, rt1) <= execution_micros(clock, rt2));
    assert(real1 <= real2);
    assert(factor.simulated(real1) <= factor.simulated(real2));
    let gap1 = gap_micros(now_micros(clock, rt1, factor), then) as i64;
    let gap2 = gap_micros(now_micros(clock, rt2, factor), then) as i64;
    assert(gap2 <= gap1);
    assert(factor.wall(gap2) <= factor.wall(gap1));
}

/// The dilation of a clock that runs as fast as the wall clock never gives less for more,
/// so all of this holds of such a clock.
pub proof fn lemma_real_time_never_decreases()
    ensures
        never_decreases(RealTime),
{
}

} // verus!
