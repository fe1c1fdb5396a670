use vct_utils::error::ToolboxError;
use vct_utils::scheduler::event::{Event, EventNotification};
use vct_utils::scheduler::internal::{sleep_millis, CommandOutcome, Scheduler, SchedulerCommand};
use vct_utils::time::{Clock, SimTime, TimeDuration};

#[derive(Debug, Clone)]
struct NoClock;

impl Clock for NoClock {
    type Time = SimTime;

    fn now(&self) -> SimTime {
        SimTime::zero()
    }

    fn delay_time(&self, _then: SimTime) -> TimeDuration {
        TimeDuration::zero()
    }
}

/// An event that fires at `at` and then every `every` microseconds; once only where
/// `every` is zero. Events rank by time, then by name.
#[derive(Debug, Clone, PartialEq, Eq, PartialOrd, Ord)]
struct Tick {
    at: SimTime,
    name: String,
    every: u64,
    fired: u64,
}

impl Tick {
    fn once(name: &str, at_millis: u64) -> Tick {
        Tick { at: SimTime::from_millis(at_millis), name: name.to_string(), every: 0, fired: 0 }
    }

    fn every(name: &str, at_millis: u64, every_millis: u64) -> Tick {
        Tick {
            at: SimTime::from_millis(at_millis),
            name: name.to_string(),
            every: every_millis * 1_000,
            fired: 0,
        }
    }
}

impl Event<NoClock> for Tick {
    fn name_of(&self) -> &str {
        self.name.as_str()
    }

    fn due_at(&self) -> SimTime {
        self.at
    }

    fn successor(&self) -> Self {
        let mut next = self.count(self.fired + 1);
        next.at = SimTime::from_micros(self.at.as_micros() + self.every);
        next
    }

    fn name(&self) -> &str {
        self.name_of()
    }

    fn execution_time(&self) -> SimTime {
        self.due_at()
    }

    fn next_time(&self) -> Self {
        self.successor()
    }

    fn count(&self, new_count: u64) -> Self {
        Tick { at: self.at, name: self.name.clone(), every: self.every, fired: new_count }
    }
}

fn schedule(scheduler: &mut Scheduler<NoClock, Tick>, event: Tick) {
    let outcome = scheduler.handle_command(SchedulerCommand::Schedule(event));
    assert_eq!(outcome.unwrap(), CommandOutcome::Wake);
}

fn cancel(scheduler: &mut Scheduler<NoClock, Tick>, name: &str) {
    let outcome = scheduler.handle_command(SchedulerCommand::Cancel { name: name.to_string() });
    assert_eq!(outcome.unwrap(), CommandOutcome::Continue);
}

fn names(fired: &Vec<EventNotification<NoClock>>) -> Vec<String> {
    let mut out = Vec::new();
    for notification in fired.iter() {
        out.push(notification.name().to_string());
    }
    out
}

fn times(fired: &Vec<EventNotification<NoClock>>) -> Vec<u64> {
    let mut out = Vec::new();
    for notification in fired.iter() {
        out.push(notification.time().as_micros());
    }
    out
}

#[test]
fn new_scheduler_holds_nothing() {
    let mut scheduler: Scheduler<NoClock, Tick> = Scheduler::new();
    assert!(scheduler.is_empty());
    assert_eq!(scheduler.len(), 0);
    assert!(!scheduler.is_stopped());
    assert!(scheduler.next_execution_time().is_none());
    assert!(scheduler.fire_next(SimTime::from_seconds(10)).is_none());
    assert!(scheduler.fire_due(SimTime::from_seconds(10)).is_empty());
}

#[test]
fn earlier_event_fires_first() {
    let mut scheduler: Scheduler<NoClock, Tick> = Scheduler::new();
    schedule(&mut scheduler, Tick::once("A", 1_100));
    schedule(&mut scheduler, Tick::once("B", 1_010));
    assert_eq!(scheduler.len(), 2);
    assert_eq!(scheduler.next_execution_time(), Some(SimTime::from_millis(1_010)));
    let fired = scheduler.fire_due(SimTime::from_millis(1_200));
    assert_eq!(names(&fired), vec!["B".to_string(), "A".to_string()]);
    assert_eq!(times(&fired), vec![1_010_000, 1_100_000]);
    assert!(scheduler.is_empty());
}

#[test]
fn only_due_events_fire() {
    let mut scheduler: Scheduler<NoClock, Tick> = Scheduler::new();
    schedule(&mut scheduler, Tick::once("A", 100));
    schedule(&mut scheduler, Tick::once("B", 10));
    schedule(&mut scheduler, Tick::once("C", 50));
    let fired = scheduler.fire_due(SimTime::from_millis(50));
    assert_eq!(names(&fired), vec!["B".to_string(), "C".to_string()]);
    assert_eq!(scheduler.len(), 1);
    assert_eq!(scheduler.next_execution_time(), Some(SimTime::from_millis(100)));
    assert!(scheduler.fire_due(SimTime::from_millis(99)).is_empty());
    let fired = scheduler.fire_due(SimTime::from_millis(100));
    assert_eq!(names(&fired), vec!["A".to_string()]);
}

#[test]
fn fire_next_takes_one_event_at_a_time() {
    let mut scheduler: Scheduler<NoClock, Tick> = Scheduler::new();
    schedule(&mut scheduler, Tick::once("late", 30));
    schedule(&mut scheduler, Tick::once("early", 20));
    let now = SimTime::from_millis(40);
    let first = scheduler.fire_next(now).unwrap();
    assert_eq!(first.name(), "early");
    assert_eq!(first.time(), SimTime::from_millis(20));
    assert_eq!(scheduler.len(), 1);
    let second = scheduler.fire_next(now).unwrap();
    assert_eq!(second.name(), "late");
    assert!(scheduler.fire_next(now).is_none());
}

#[test]
fn event_due_exactly_now_fires() {
    let mut scheduler: Scheduler<NoClock, Tick> = Scheduler::new();
    schedule(&mut scheduler, Tick::once("edge", 7));
    assert!(scheduler.fire_next(SimTime::from_micros(6_999)).is_none());
    let fired = scheduler.fire_next(SimTime::from_micros(7_000)).unwrap();
    assert_eq!(fired.name, "edge");
    assert_eq!(fired.time, SimTime::from_micros(7_000));
}

#[test]
fn cancelled_event_does_not_fire() {
    let mut scheduler: Scheduler<NoClock, Tick> = Scheduler::new();
    schedule(&mut scheduler, Tick::once("keep", 10));
    schedule(&mut scheduler, Tick::once("drop", 20));
    cancel(&mut scheduler, "drop");
    assert_eq!(scheduler.len(), 1);
    let fired = scheduler.fire_due(SimTime::from_millis(1_000));
    assert_eq!(names(&fired), vec!["keep".to_string()]);
}

#[test]
fn cancel_after_firing_does_not_retract() {
    let mut scheduler: Scheduler<NoClock, Tick> = Scheduler::new();
    schedule(&mut scheduler, Tick::once("gone", 10));
    let fired = scheduler.fire_due(SimTime::from_millis(10));
    cancel(&mut scheduler, "gone");
    assert_eq!(names(&fired), vec!["gone".to_string()]);
    assert!(scheduler.is_empty());
}

#[test]
fn cancel_drops_every_event_of_the_name() {
    let mut scheduler: Scheduler<NoClock, Tick> = Scheduler::new();
    schedule(&mut scheduler, Tick::once("twin", 10));
    schedule(&mut scheduler, Tick::once("other", 15));
    schedule(&mut scheduler, Tick::once("twin", 20));
    cancel(&mut scheduler, "twin");
    assert_eq!(scheduler.len(), 1);
    cancel(&mut scheduler, "nobody");
    assert_eq!(scheduler.len(), 1);
    cancel(&mut scheduler, "oth");
    assert_eq!(scheduler.len(), 1);
    let fired = scheduler.fire_due(SimTime::from_millis(100));
    assert_eq!(names(&fired), vec!["other".to_string()]);
}

#[test]
fn recurring_event_fires_at_growing_times() {
    let mut scheduler: Scheduler<NoClock, Tick> = Scheduler::new();
    schedule(&mut scheduler, Tick::every("beat", 10, 10));
    let mut seen: Vec<u64> = Vec::new();
    for now_millis in [10u64, 25, 30, 45] {
        let fired = scheduler.fire_due(SimTime::from_millis(now_millis));
        assert_eq!(fired.len(), 1);
        assert_eq!(fired[0].name(), "beat");
        seen.push(fired[0].time().as_micros());
        assert_eq!(scheduler.len(), 1);
    }
    assert_eq!(seen, vec![10_000, 20_000, 30_000, 40_000]);
    cancel(&mut scheduler, "beat");
    assert!(scheduler.fire_due(SimTime::from_millis(1_000)).is_empty());
}

#[test]
fn recurrence_ends_when_next_time_is_not_in_the_future() {
    let mut scheduler: Scheduler<NoClock, Tick> = Scheduler::new();
    schedule(&mut scheduler, Tick::every("beat", 10, 10));
    // the next occurrence, at 20 ms, is not later than now: it is dropped, not fired
    let fired = scheduler.fire_due(SimTime::from_millis(20));
    assert_eq!(times(&fired), vec![10_000]);
    assert!(scheduler.is_empty());
}

#[test]
fn requeue_takes_only_future_occurrences() {
    let mut scheduler: Scheduler<NoClock, Tick> = Scheduler::new();
    let now = SimTime::from_millis(50);
    scheduler.requeue("past".to_string(), SimTime::from_millis(50), Tick::once("past", 50), now);
    assert!(scheduler.is_empty());
    scheduler.requeue("next".to_string(), SimTime::from_micros(50_001), Tick::once("next", 51), now);
    assert_eq!(scheduler.len(), 1);
    assert_eq!(scheduler.next_execution_time(), Some(SimTime::from_micros(50_001)));
}

#[test]
fn events_due_together_fire_in_their_own_order() {
    let mut scheduler: Scheduler<NoClock, Tick> = Scheduler::new();
    schedule(&mut scheduler, Tick::once("b", 10));
    schedule(&mut scheduler, Tick::once("c", 10));
    schedule(&mut scheduler, Tick::once("a", 10));
    schedule(&mut scheduler, Tick::once("z", 5));
    let fired = scheduler.fire_due(SimTime::from_millis(10));
    assert_eq!(
        names(&fired),
        vec!["z".to_string(), "a".to_string(), "b".to_string(), "c".to_string()]
    );
}

#[test]
fn stop_drops_everything_and_closes() {
    let mut scheduler: Scheduler<NoClock, Tick> = Scheduler::new();
    schedule(&mut scheduler, Tick::once("A", 10));
    schedule(&mut scheduler, Tick::every("B", 20, 5));
    let outcome = scheduler.handle_command(SchedulerCommand::Stop);
    assert_eq!(outcome.unwrap(), CommandOutcome::Terminate);
    assert!(scheduler.is_stopped());
    assert!(scheduler.is_empty());
    assert!(scheduler.fire_due(SimTime::from_seconds(3_600)).is_empty());
    assert!(scheduler.next_execution_time().is_none());

    let refused = scheduler.handle_command(SchedulerCommand::Schedule(Tick::once("C", 30)));
    match refused {
        Err(ToolboxError::ActorClosed(detail)) => {
            assert_eq!(detail, "Unable to communicate with actor channel closed")
        }
        _ => panic!("a stopped scheduler took a command"),
    }
    assert!(scheduler.is_empty());
    assert!(matches!(
        scheduler.handle_command(SchedulerCommand::Cancel { name: "A".to_string() }),
        Err(ToolboxError::ActorClosed(_))
    ));
    assert!(matches!(
        scheduler.handle_command(SchedulerCommand::Stop),
        Err(ToolboxError::ActorClosed(_))
    ));
    assert!(scheduler.fire_due(SimTime::from_seconds(7_200)).is_empty());
}

#[test]
fn schedules_minus_cancels_stay_pending() {
    let mut scheduler: Scheduler<NoClock, Tick> = Scheduler::new();
    for i in 0..20u64 {
        schedule(&mut scheduler, Tick::once(format!("event-{}", i).as_str(), 100 + (i * 7) % 13));
    }
    assert_eq!(scheduler.len(), 20);
    for i in [0u64, 3, 4, 9, 15, 19] {
        cancel(&mut scheduler, format!("event-{}", i).as_str());
    }
    assert_eq!(scheduler.len(), 14);
    let fired = scheduler.fire_due(SimTime::from_seconds(1));
    assert_eq!(fired.len(), 14);
    let all = times(&fired);
    for pair in all.windows(2) {
        assert!(pair[0] <= pair[1]);
    }
    for name in names(&fired) {
        for i in [0u64, 3, 4, 9, 15, 19] {
            assert_ne!(name, format!("event-{}", i));
        }
    }
}

#[test]
fn sleep_is_the_delay_in_whole_milliseconds() {
    assert_eq!(sleep_millis(TimeDuration::zero()), 0);
    assert_eq!(sleep_millis(TimeDuration::milliseconds(1_500)), 1_500);
    assert_eq!(sleep_millis(TimeDuration::microseconds(1_999)), 1);
    assert_eq!(sleep_millis(TimeDuration::microseconds(-999)), 0);
    assert_eq!(sleep_millis(TimeDuration::milliseconds(-1)), u64::MAX);
    assert_eq!(sleep_millis(TimeDuration::milliseconds(i64::MAX)), i64::MAX as u64);
}

#[test]
fn notification_hands_out_name_and_time() {
    let notification: EventNotification<NoClock> =
        EventNotification { name: "ping".to_string(), time: SimTime::from_millis(3) };
    assert_eq!(notification.name(), "ping");
    assert_eq!(notification.time(), SimTime::from_micros(3_000));
    let copy = notification.clone();
    assert_eq!(copy.name, "ping");
    assert_eq!(notification.to_string(), "ping: 3000");
}

#[test]
fn due_notifications_go_to_the_outbox_in_firing_order() {
    let (sender, mut receiver) = tokio::sync::mpsc::unbounded_channel();
    let mut scheduler: Scheduler<NoClock, Tick> = Scheduler::new();
    schedule(&mut scheduler, Tick::once("A", 100));
    schedule(&mut scheduler, Tick::once("B", 10));
    schedule(&mut scheduler, Tick::once("C", 500));
    assert!(scheduler.send_due(SimTime::from_millis(5), &sender).is_ok());
    assert!(receiver.try_recv().is_err());
    assert!(scheduler.send_due(SimTime::from_millis(200), &sender).is_ok());
    let first = receiver.try_recv().unwrap();
    let second = receiver.try_recv().unwrap();
    assert_eq!(first.name(), "B");
    assert_eq!(first.time(), SimTime::from_millis(10));
    assert_eq!(second.name(), "A");
    assert!(receiver.try_recv().is_err());
    assert_eq!(scheduler.len(), 1);
}

#[test]
fn closed_outbox_ends_the_sending() {
    let (sender, receiver) = tokio::sync::mpsc::unbounded_channel();
    drop(receiver);
    let mut scheduler: Scheduler<NoClock, Tick> = Scheduler::new();
    assert!(scheduler.send_due(SimTime::from_millis(5), &sender).is_ok());
    schedule(&mut scheduler, Tick::once("A", 100));
    schedule(&mut scheduler, Tick::once("B", 10));
    assert!(scheduler.send_due(SimTime::from_millis(5), &sender).is_ok());
    match scheduler.send_due(SimTime::from_millis(200), &sender) {
        Err(ToolboxError::ActorClosed(detail)) => {
            assert_eq!(detail, "Unable to communicate with actor channel closed")
        }
        _ => panic!("a closed outbox took a notification"),
    }
    assert!(scheduler.is_empty());
}
