use vct_utils::time::{
    Clock, RealTime, RealTimeSimClock, SimClock, SimDuration, SimTime, TimeDilation, TimeDuration,
    WallTime,
};

/// A dilation factor held as a floating-point number.
#[derive(Debug, Clone, Copy)]
struct Factor(f64);

impl TimeDilation for Factor {
    fn unit() -> Self {
        Factor(1.0)
    }

    fn simulated(&self, real_micros: i64) -> i64 {
        (real_micros as f64 * self.0).floor() as i64
    }

    fn wall(&self, simulated_micros: i64) -> i64 {
        (simulated_micros as f64 / self.0) as i64
    }

    fn real_time() -> Self {
        Self::unit()
    }

    fn to_simulated(&self, real_micros: i64) -> i64 {
        self.simulated(real_micros)
    }

    fn to_real(&self, simulated_micros: i64) -> i64 {
        self.wall(simulated_micros)
    }
}

fn at(millis: i64) -> WallTime {
    WallTime::from_timestamp_millis(millis).unwrap()
}

fn wait_two_milliseconds() {
    let begin = WallTime::now();
    while (WallTime::now() - begin).num_milliseconds() < 2 {}
}

#[test]
fn clock_starts_in_stopped_state() {
    let clock = RealTimeSimClock::<Factor>::default();
    assert!(clock.is_stopped());
}

#[test]
fn stopped_clock_returns_same_time() {
    let mut clock = RealTimeSimClock::<Factor>::default();
    clock.stop();
    assert!(clock.is_stopped());
    let before = clock.now();
    wait_two_milliseconds();
    assert_eq!(before, clock.now());
}

#[test]
fn paused_clock_returns_same_time() {
    let mut clock = RealTimeSimClock::<Factor>::default();
    clock.pause();
    assert!(clock.is_paused());
    let before = clock.now();
    wait_two_milliseconds();
    assert_eq!(before, clock.now());
}

#[test]
fn default_clock_is_fresh() {
    let before = WallTime::now();
    let clock = RealTimeSimClock::<Factor>::default();
    let after = WallTime::now();
    assert!(before <= clock.simulation_start_time());
    assert!(clock.simulation_start_time() <= after);
    assert_eq!(clock.pause_time(), TimeDuration::zero());
    assert!(!clock.is_running());
    assert!(!clock.is_paused());
    assert_eq!(clock.sim_time_after(0), SimTime::zero());
    let before = clock.now();
    wait_two_milliseconds();
    assert_eq!(before, clock.now());
    assert_eq!(clock.now(), SimTime::zero());
    assert_eq!(clock.elapsed(), SimDuration::zero());
}

#[test]
fn running_clock_moves_on() {
    let mut clock = RealTimeSimClock::<Factor>::default();
    clock.start(WallTime::now(), SimTime::from_seconds(5), TimeDuration::zero(), Factor(1.0));
    assert!(clock.is_paused());
    clock.resume();
    assert!(clock.is_running());
    let before = clock.now();
    wait_two_milliseconds();
    let after = clock.now();
    assert!(after > before);
    assert!(before >= SimTime::from_seconds(5));
    assert!(clock.elapsed() >= SimDuration::milliseconds(2));
    assert!((after - before).num_milliseconds() >= 2);
}

#[test]
fn simulation_time_follows_the_formula() {
    let mut clock = RealTimeSimClock::new_at(at(0), Factor(1.0));
    clock.start_at(at(1_000), SimTime::from_seconds(1), TimeDuration::zero(), Factor(2.0), at(1_000));
    assert!(clock.is_paused());
    clock.resume_at(at(1_005));
    assert!(clock.is_running());
    assert_eq!(clock.pause_time(), TimeDuration::milliseconds(5));
    // 105 ms after the start, 5 ms of them paused, at twice the speed
    assert_eq!(clock.execution_time_at(at(1_105)), TimeDuration::milliseconds(100));
    assert_eq!(clock.real_micros_at(at(1_105)), 100_000);
    assert_eq!(clock.sim_time_after(200_000), SimTime::from_micros(1_200_000));
    assert_eq!(clock.now_at(at(1_105)), SimTime::from_micros(1_200_000));
    assert_eq!(clock.elapsed_since_start(clock.now_at(at(1_105))).num_milliseconds(), 200);
}

#[test]
fn slow_clock_rounds_down() {
    let mut clock = RealTimeSimClock::new_at(at(0), Factor(0.3));
    clock.resume_at(at(0));
    assert_eq!(clock.real_micros_at(WallTime::try_from(vct_utils::time::TimeStamp::from_micros(7)).unwrap()), 7);
    // 7 microseconds at 0.3 are 2.1 microseconds of simulation time
    assert_eq!(
        clock.now_at(WallTime::try_from(vct_utils::time::TimeStamp::from_micros(7)).unwrap()),
        SimTime::from_micros(2)
    );
}

#[test]
fn paused_and_stopped_clocks_stand_still() {
    let mut clock = RealTimeSimClock::new_at(at(0), Factor(4.0));
    clock.resume_at(at(0));
    clock.pause_at(at(250));
    let frozen = clock.now_at(at(250));
    assert_eq!(frozen, SimTime::from_seconds(1));
    assert_eq!(clock.now_at(at(251)), frozen);
    assert_eq!(clock.now_at(at(1_000_000)), frozen);
    assert_eq!(clock.execution_time_at(at(999)), TimeDuration::milliseconds(250));
    clock.resume_at(at(1_250));
    assert_eq!(clock.now_at(at(1_250)), frozen);
    assert_eq!(clock.now_at(at(1_255)), SimTime::from_micros(1_020_000));
    clock.stop_at(at(1_300));
    assert!(clock.is_stopped());
    let halted = clock.now_at(at(1_300));
    assert_eq!(halted, SimTime::from_micros(1_200_000));
    assert_eq!(clock.now_at(at(5_000)), halted);
}

#[test]
fn resume_adds_the_pause_to_the_paused_time() {
    let mut clock = RealTimeSimClock::new_at(at(10_000), Factor(1.0));
    clock.resume_at(at(10_000));
    assert_eq!(clock.pause_time(), TimeDuration::zero());
    clock.pause_at(at(10_400));
    clock.resume_at(at(10_900));
    assert_eq!(clock.pause_time(), TimeDuration::milliseconds(500));
    // 1000 ms after the start, 500 of them paused
    assert_eq!(clock.execution_time_at(at(11_000)), TimeDuration::milliseconds(500));
    assert_eq!(clock.now_at(at(11_000)), SimTime::from_millis(500));
    clock.pause_at(at(11_000));
    clock.resume_at(at(11_100));
    assert_eq!(clock.pause_time(), TimeDuration::milliseconds(600));
}

#[test]
fn pausing_a_paused_clock_keeps_the_pause() {
    let mut clock = RealTimeSimClock::new_at(at(0), Factor(1.0));
    clock.resume_at(at(0));
    clock.pause_at(at(100));
    clock.pause_at(at(300));
    assert!(clock.is_paused());
    assert_eq!(clock.now_at(at(400)), SimTime::from_millis(100));
    clock.resume_at(at(600));
    assert_eq!(clock.pause_time(), TimeDuration::milliseconds(500));
    assert_eq!(clock.now_at(at(600)), SimTime::from_millis(100));
}

#[test]
fn fresh_clock_stands_still_until_it_is_resumed() {
    let mut clock = RealTimeSimClock::new_at(at(0), Factor(1.0));
    assert!(clock.is_stopped());
    assert_eq!(clock.now_at(at(0)), SimTime::zero());
    assert_eq!(clock.now_at(at(500)), SimTime::zero());
    assert_eq!(clock.now_at(at(9_000)), SimTime::zero());
    assert_eq!(clock.execution_time_at(at(9_000)), TimeDuration::zero());
    clock.resume_at(at(700));
    assert!(clock.is_running());
    assert_eq!(clock.pause_time(), TimeDuration::milliseconds(700));
    assert_eq!(clock.now_at(at(700)), SimTime::zero());
    assert_eq!(clock.now_at(at(800)), SimTime::from_millis(100));

    let mut live = RealTimeSimClock::<Factor>::default();
    wait_two_milliseconds();
    live.resume();
    assert!(live.is_running());
    assert!(live.pause_time() >= TimeDuration::milliseconds(2));
}

#[test]
fn stop_and_start_change_the_state() {
    let mut clock = RealTimeSimClock::<Factor>::default();
    clock.pause();
    assert!(clock.is_paused() && !clock.is_running() && !clock.is_stopped());
    clock.resume();
    assert!(clock.is_running() && !clock.is_paused() && !clock.is_stopped());
    clock.stop();
    assert!(clock.is_stopped() && !clock.is_paused() && !clock.is_running());
    let start = at(5_000);
    clock.start(start, SimTime::from_seconds(9), TimeDuration::milliseconds(40), Factor(3.0));
    assert!(clock.is_paused());
    assert_eq!(clock.simulation_start_time(), start);
    assert_eq!(clock.pause_time(), TimeDuration::milliseconds(40));
    assert_eq!(clock.sim_time_after(1), SimTime::from_micros(9_000_001));
}

#[test]
fn offset_moves_the_start() {
    let mut clock = RealTimeSimClock::new_at(at(1_000), Factor(1.0));
    clock.resume_at(at(1_000));
    assert_eq!(clock.now_at(at(2_000)), SimTime::from_seconds(1));
    clock.offset_by(TimeDuration::milliseconds(250));
    assert_eq!(clock.simulation_start_time(), at(1_250));
    assert_eq!(clock.now_at(at(2_000)), SimTime::from_millis(750));
    clock.offset_by(TimeDuration::milliseconds(-500));
    assert_eq!(clock.simulation_start_time(), at(750));
    assert_eq!(clock.now_at(at(2_000)), SimTime::from_millis(1_250));
    clock.offset_by(TimeDuration::milliseconds(i64::MAX));
    assert_eq!(clock.simulation_start_time().timestamp_micros(), 8_210_266_876_799_999_999);
}

#[test]
fn simulation_time_stays_in_range() {
    let mut clock = RealTimeSimClock::new_at(at(1_000), Factor(1.0));
    clock.resume_at(at(1_000));
    // before the start the run time is negative: the clock shows the epoch
    assert_eq!(clock.execution_time_at(at(400)), TimeDuration::milliseconds(-600));
    assert_eq!(clock.now_at(at(400)), SimTime::zero());
    assert_eq!(clock.sim_time_after(-1), SimTime::zero());
    assert_eq!(clock.sim_time_after(i64::MIN), SimTime::zero());
    clock.start_at(at(0), SimTime::from_micros(u64::MAX - 5), TimeDuration::zero(), Factor(1.0), at(0));
    assert_eq!(clock.sim_time_after(5), SimTime::from_micros(u64::MAX));
    assert_eq!(clock.sim_time_after(6), SimTime::from_micros(u64::MAX));
    assert_eq!(clock.sim_time_after(i64::MAX), SimTime::from_micros(u64::MAX));
    assert_eq!(clock.sim_time_after(-6), SimTime::from_micros(u64::MAX - 11));
}

#[test]
fn run_time_stays_in_range() {
    let first = at(-8_334_601_228_800_000);
    let last = at(8_210_266_876_799_999);
    let mut clock = RealTimeSimClock::new_at(first, Factor(1.0));
    clock.resume_at(first);
    assert_eq!(
        clock.execution_time_at(last).total_microseconds(),
        16_544_868_105_599_999_000
    );
    assert_eq!(clock.real_micros_at(last), i64::MAX);
    clock.start_at(last, SimTime::zero(), TimeDuration::milliseconds(i64::MAX), Factor(1.0), last);
    clock.resume_at(last);
    assert_eq!(
        clock.execution_time_at(first).total_microseconds(),
        -9_223_372_036_854_775_807_000
    );
    assert_eq!(clock.real_micros_at(first), i64::MIN);
    clock.pause_at(first);
    clock.resume_at(last);
    assert_eq!(clock.pause_time().total_microseconds(), 9_223_372_036_854_775_807_000);
}

#[test]
fn delay_is_the_gap_in_wall_clock_time() {
    let clock = RealTimeSimClock::new_at(at(0), Factor(2.0));
    let now = SimTime::from_millis(1_200);
    assert_eq!(clock.delay_between(now, SimTime::from_millis(1_300)), TimeDuration::milliseconds(50));
    assert_eq!(clock.delay_between(now, SimTime::from_millis(2_200)), TimeDuration::milliseconds(500));
    assert_eq!(clock.delay_between(now, SimTime::from_millis(1_201)), TimeDuration::microseconds(500));
    assert_eq!(clock.delay_between(now, SimTime::from_millis(1_202)), TimeDuration::milliseconds(1));
    assert_eq!(clock.delay_between(now, SimTime::from_micros(1_200_999)), TimeDuration::microseconds(499));
    assert_eq!(clock.delay_between(now, SimTime::from_micros(1_200_002)), TimeDuration::microseconds(1));
    assert_eq!(clock.delay_between(now, now), TimeDuration::zero());
    assert_eq!(clock.delay_between(now, SimTime::from_millis(1_000)), TimeDuration::zero());
    let slow = RealTimeSimClock::new_at(at(0), Factor(0.5));
    assert_eq!(slow.delay_between(now, SimTime::from_millis(1_300)), TimeDuration::milliseconds(200));
    let even = RealTimeSimClock::new_at(at(0), Factor(1.0));
    assert_eq!(even.delay_between(now, SimTime::from_micros(1_200_500)), TimeDuration::microseconds(500));
    assert_eq!(even.delay_between(now, SimTime::from_micros(1_200_001)), TimeDuration::microseconds(1));
    assert_eq!(
        even.delay_between(SimTime::zero(), SimTime::from_micros(u64::MAX)),
        TimeDuration::microseconds(i64::MAX)
    );
}

#[test]
fn wait_is_never_negative() {
    let gap = SimDuration::milliseconds(100);
    assert_eq!(RealTimeSimClock::<Factor>::wait_for(gap, 50), TimeDuration::microseconds(50));
    assert_eq!(RealTimeSimClock::<Factor>::wait_for(gap, 0), TimeDuration::zero());
    assert_eq!(RealTimeSimClock::<Factor>::wait_for(gap, -50), TimeDuration::zero());
    assert_eq!(RealTimeSimClock::<Factor>::wait_for(gap, i64::MIN), TimeDuration::zero());
    assert_eq!(
        RealTimeSimClock::<Factor>::wait_for(gap, i64::MAX),
        TimeDuration::microseconds(i64::MAX)
    );
    assert_eq!(
        RealTimeSimClock::<Factor>::wait_for(SimDuration::microseconds(1), 50),
        TimeDuration::microseconds(50)
    );
    assert_eq!(RealTimeSimClock::<Factor>::wait_for(SimDuration::zero(), 50), TimeDuration::zero());
    assert_eq!(
        RealTimeSimClock::<Factor>::wait_for(SimDuration::microseconds(-1), 50),
        TimeDuration::zero()
    );
}

#[test]
fn delay_and_elapsed_at_an_instant() {
    let mut clock = RealTimeSimClock::new_at(at(0), Factor(2.0));
    clock.resume_at(at(0));
    assert_eq!(clock.delay_time_at(SimTime::from_seconds(1), at(400)), TimeDuration::milliseconds(100));
    assert_eq!(clock.delay_time_at(SimTime::from_seconds(1), at(500)), TimeDuration::zero());
    assert_eq!(clock.delay_time_at(SimTime::from_seconds(1), at(600)), TimeDuration::zero());
    assert_eq!(clock.elapsed_at(at(400)), SimDuration::milliseconds(800));
    clock.pause_at(at(400));
    assert_eq!(clock.delay_time_at(SimTime::from_seconds(1), at(400)), TimeDuration::milliseconds(100));
    assert_eq!(clock.delay_time_at(SimTime::from_seconds(1), at(4_000)), TimeDuration::milliseconds(100));
    assert_eq!(clock.elapsed_at(at(4_000)), SimDuration::milliseconds(800));
}

#[test]
fn real_time_clock_runs_as_fast_as_the_wall_clock() {
    assert_eq!(RealTime.to_simulated(123), 123);
    assert_eq!(RealTime.to_simulated(-5), -5);
    assert_eq!(RealTime.to_real(77), 77);
    assert_eq!(RealTime::real_time(), RealTime);
    let mut clock: RealTimeSimClock<RealTime> = RealTimeSimClock::default();
    assert!(clock.is_stopped());
    clock.start_at(at(1_000), SimTime::from_seconds(3), TimeDuration::zero(), RealTime, at(1_000));
    clock.resume_at(at(1_000));
    assert_eq!(clock.now_at(at(1_250)), SimTime::from_micros(3_250_000));
    assert_eq!(
        clock.delay_time_at(SimTime::from_micros(3_250_700), at(1_250)),
        TimeDuration::microseconds(700)
    );
    assert_eq!(clock.elapsed_at(at(1_250)), SimDuration::milliseconds(250));
}

#[test]
fn delay_shrinks_as_time_advances() {
    let mut clock = RealTimeSimClock::new_at(at(0), Factor(2.0));
    clock.resume_at(at(0));
    let then = SimTime::from_seconds(1);
    let mut last = TimeDuration::milliseconds(i64::MAX);
    for millis in [0i64, 100, 250, 400, 499, 500, 501, 900] {
        let now = clock.now_at(at(millis));
        let delay = clock.delay_between(now, then);
        assert!(delay <= last);
        assert!(delay >= TimeDuration::zero());
        if now >= then {
            assert_eq!(delay, TimeDuration::zero());
        }
        last = delay;
    }
    assert_eq!(clock.delay_between(clock.now_at(at(0)), then), TimeDuration::milliseconds(500));
    assert_eq!(clock.delay_between(clock.now_at(at(400)), then), TimeDuration::milliseconds(100));
    assert_eq!(last, TimeDuration::zero());
    assert_eq!(clock.delay_time(SimTime::zero()), TimeDuration::zero());
}

#[test]
fn elapsed_leaves_pauses_out() {
    let mut clock = RealTimeSimClock::new_at(at(0), Factor(1.0));
    clock.start_at(at(0), SimTime::from_seconds(100), TimeDuration::zero(), Factor(1.0), at(0));
    clock.resume_at(at(0));
    clock.pause_at(at(300));
    clock.resume_at(at(800));
    let now = clock.now_at(at(1_000));
    assert_eq!(now, SimTime::from_millis(100_500));
    assert_eq!(clock.elapsed_since_start(now).num_milliseconds(), 500);
    assert_eq!(clock.elapsed_since_start(SimTime::from_seconds(99)).num_milliseconds(), 0);
}
