//! The scheduling actor's state and decisions: which events are pending, in what order
//! they fire, and what each command does to them.
use core::marker::PhantomData;
use vstd::prelude::*;
use vstd::string::*;

use crate::error::ToolboxError;
use crate::scheduler::event::{Event, EventNotification};
use crate::scheduler::queue::{
    due_len, follows_firing, follows_firings, holds_rest, inserted, is_time_ordered,
    lemma_due_len_bounds, lemma_follows_itself, lemma_holds_rest_step, lemma_insert_keeps_order,
    lemma_insert_later_keeps_due, lemma_inserted_adds_one, lemma_remove_keeps_order,
    lemma_rest_not_due, slot_fits, without_name, PendingEntry,
};
use crate::time::real_time::div_toward_zero;
use crate::time::{Clock, SimTime, TimeDuration};

verus! {

/// A message to the scheduling actor.
pub enum SchedulerCommand<E> {
    Schedule(E),
    Cancel { name: String },
    Stop,
}

/// What the actor's loop is to do once a command has been taken in.
#[derive(Debug, Clone, Copy, PartialEq, Eq, Structural)]
pub enum CommandOutcome {
    /// Raise the wake signal: the pending events have to be looked at.
    Wake,
    /// Go on waiting.
    Continue,
    /// Close the inbox and end the loop.
    Terminate,
}

/// A pending event with the name and the execution time it reported when it was taken in.
struct Pending<E> {
    name: String,
    time: SimTime,
    event: E,
}

impl<E> Pending<E> {
    spec fn entry(self) -> PendingEntry {
        PendingEntry { name: self.name@, time: self.time@ }
    }
}

spec fn entries<E>(items: Seq<Pending<E>>) -> Seq<PendingEntry> {
    Seq::new(items.len(), |i: int| items[i].entry())
}

proof fn lemma_entries_insert<E>(items: Seq<Pending<E>>, slot: int, item: Pending<E>)
    requires
        0 <= slot <= items.len(),
    ensures
        entries(items.insert(slot, item)) == entries(items).insert(slot, item.entry()),
        events_of(items.insert(slot, item)) == events_of(items).insert(slot, item.event),
{
    assert(entries(items.insert(slot, item)) =~= entries(items).insert(slot, item.entry()));
    assert(events_of(items.insert(slot, item)) =~= events_of(items).insert(slot, item.event));
}

proof fn lemma_entries_remove<E>(items: Seq<Pending<E>>, at: int)
    requires
        0 <= at < items.len(),
    ensures
        entries(items.remove(at)) == entries(items).remove(at),
        events_of(items.remove(at)) == events_of(items).remove(at),
{
    assert(entries(items.remove(at)) =~= entries(items).remove(at));
    assert(events_of(items.remove(at)) =~= events_of(items).remove(at));
}

#[verifier::external_type_specification]
#[verifier::external_body]
#[verifier::reject_recursive_types(T)]
pub struct ExUnboundedSender<T>(tokio::sync::mpsc::UnboundedSender<T>);

/// `tokio::sync::mpsc::UnboundedSender::send`: hands the message to the channel without
/// waiting. Whether the channel takes it depends on whether its receiving end is still open,
/// so nothing is claimed of the outcome.
#[verifier::external_body]
fn send_message<M>(sender: &tokio::sync::mpsc::UnboundedSender<M>, message: M) -> (sent: Result<
    (),
    tokio::sync::mpsc::error::SendError<M>,
>) {
    sender.send(message)
}

/// The whole milliseconds to sleep for `delay`, as the timer takes them. A clock gives no
/// negative delay; the milliseconds of one would be read as an unsigned number, which makes
/// the sleep last.
pub fn sleep_millis(delay: TimeDuration) -> (millis: u64)
    ensures
        millis == (if div_toward_zero(delay@, 1_000) >= 0 {
            div_toward_zero(delay@, 1_000)
        } else {
            div_toward_zero(delay@, 1_000) + 0x1_0000_0000_0000_0000
        }),
{
    let signed: i64 = delay.num_milliseconds();
    if signed >= 0 {
        signed as u64
    } else {
        let low: i64 = signed - i64::MIN;
        low as u64 + 0x8000_0000_0000_0000
    }
}

/// What the contracts say of a scheduler: the pending entries in firing order, the event
/// that is kept with each of them, and whether the scheduler was stopped.
pub struct SchedulerView<E> {
    pub pending: Seq<PendingEntry>,
    pub events: Seq<E>,
    pub stopped: bool,
}

/// The entry under which an event is pending when it is taken in by what it reports: its
/// name and its execution time.
pub open spec fn entry_of<T: Clock<Time = SimTime>, E: Event<T>>(event: E) -> PendingEntry {
    PendingEntry { name: event.name_of()@, time: event.due_at()@ }
}

/// `after` is `before` with `event` taken in under `entry`: entry and event stand at the
/// same slot, one that keeps the time order.
pub open spec fn inserted_with<E>(
    before: SchedulerView<E>,
    after: SchedulerView<E>,
    entry: PendingEntry,
    event: E,
) -> bool {
    exists|slot: int|
        {
            &&& #[trigger] slot_fits(before.pending, slot, entry)
            &&& after.pending == before.pending.insert(slot, entry)
            &&& after.events == before.events.insert(slot, event)
            &&& after.stopped == before.stopped
        }
}

/// The events that stay when the entries called `name` are cancelled: those whose entries
/// stay, in their order.
pub open spec fn kept_events<E>(pending: Seq<PendingEntry>, events: Seq<E>, name: Seq<char>) -> Seq<
    E,
>
    decreases pending.len(),
{
    if pending.len() == 0 || events.len() == 0 {
        Seq::empty()
    } else if pending.last().name != name {
        kept_events(pending.drop_last(), events.drop_last(), name).push(events.last())
    } else {
        kept_events(pending.drop_last(), events.drop_last(), name)
    }
}

/// What firing the head of `before` at `now` leaves: the head is gone, and its next
/// occurrence is taken in by what it reports if that is due later than `now`.
pub open spec fn after_firing<T: Clock<Time = SimTime>, E: Event<T>>(
    before: SchedulerView<E>,
    after: SchedulerView<E>,
    now: nat,
) -> bool {
    let rest = SchedulerView {
        pending: before.pending.skip(1),
        events: before.events.skip(1),
        stopped: before.stopped,
    };
    let next = before.events[0].successor();
    if entry_of::<T, E>(next).time > now {
        inserted_with(rest, after, entry_of::<T, E>(next), next)
    } else {
        after == rest
    }
}

/// What firing the head of `before` at `now`, `count` times in a row, leaves.
pub open spec fn after_firings<T: Clock<Time = SimTime>, E: Event<T>>(
    before: SchedulerView<E>,
    after: SchedulerView<E>,
    now: nat,
    count: nat,
) -> bool
    decreases count,
{
    if count == 0 {
        after == before
    } else {
        exists|mid: SchedulerView<E>|
            after_firings::<T, E>(before, mid, now, (count - 1) as nat) && #[trigger] after_firing::<
                T,
                E,
            >(mid, after, now)
    }
}

/// The state of the scheduling actor: the pending events, earliest first.
pub struct Scheduler<T: Clock<Time = SimTime>, E: Event<T>> {
    pending: Vec<Pending<E>>,
    stopped: bool,
    clock: PhantomData<T>,
}

spec fn events_of<E>(items: Seq<Pending<E>>) -> Seq<E> {
    Seq::new(items.len(), |i: int| items[i].event)
}

impl<T: Clock<Time = SimTime>, E: Event<T>> View for Scheduler<T, E> {
    type V = SchedulerView<E>;

    closed spec fn view(&self) -> SchedulerView<E> {
        SchedulerView {
            pending: entries(self.pending@),
            events: events_of(self.pending@),
            stopped: self.stopped,
        }
    }
}

impl<T: Clock<Time = SimTime>, E: Event<T>> Scheduler<T, E> {
    /// The pending events stand in time order, and a stopped scheduler holds none.
    /// Every scheduler that this library hands out is well-formed.
    pub open spec fn well_formed(&self) -> bool {
        &&& is_time_ordered(self@.pending)
        &&& self@.events.len() == self@.pending.len()
        &&& self@.stopped ==> self@.pending.len() == 0
    }

    /// A scheduler with nothing pending.
    pub fn new() -> (scheduler: Self)
        ensures
            scheduler.well_formed(),
            scheduler@.pending == Seq::<PendingEntry>::empty(),
            scheduler@.events == Seq::<E>::empty(),
            !scheduler@.stopped,
    {
        let scheduler = Scheduler { pending: Vec::new(), stopped: false, clock: PhantomData };
        assert(entries(scheduler.pending@) =~= Seq::<PendingEntry>::empty());
        assert(events_of(scheduler.pending@) =~= Seq::<E>::empty());
        scheduler
    }

    /// The number of pending events.
    pub fn len(&self) -> (n: usize)
        ensures
            n == self@.pending.len(),
    {
        self.pending.len()
    }

    /// Whether nothing is pending.
    pub fn is_empty(&self) -> (b: bool)
        ensures
            b == (self@.pending.len() == 0),
    {
        self.pending.len() == 0
    }

    /// Whether the scheduler was stopped.
    pub fn is_stopped(&self) -> (b: bool)
        ensures
            b == self@.stopped,
    {
        self.stopped
    }

    /// The execution time of the event that fires next, or `None` where nothing is pending:
    /// the time to sleep until.
    pub fn next_execution_time(&self) -> (time: Option<SimTime>)
        ensures
            match time {
                None => self@.pending.len() == 0,
                Some(t) => self@.pending.len() > 0 && t@ == self@.pending[0].time,
            },
    {
        if self.pending.len() == 0 {
            None
        } else {
            Some(self.pending[0].time)
        }
    }

    /// Whether `pending` keeps its place ahead of an event that is due at `time`: it is due
    /// earlier, or at the same time and not ranked behind `event`.
    fn stands_ahead(pending: &Pending<E>, time: SimTime, event: &E) -> (ahead: bool)
        ensures
            ahead ==> pending.time@ <= time@,
            !ahead ==> time@ <= pending.time@,
    {
        let due: u64 = pending.time.as_micros();
        let at: u64 = time.as_micros();
        due < at || (due == at && pending.event <= *event)
    }

    /// Takes in an event under the name and the execution time given: it goes behind the
    /// events that are due earlier and ahead of those that are due later. Among the events
    /// that are due at the same time it goes behind those that its own order does not rank
    /// behind it.
    pub fn insert(&mut self, name: String, time: SimTime, event: E)
        requires
            old(self).well_formed(),
            !old(self)@.stopped,
        ensures
            final(self).well_formed(),
            !final(self)@.stopped,
            inserted(
                old(self)@.pending,
                final(self)@.pending,
                PendingEntry { name: name@, time: time@ },
            ),
            inserted_with(
                old(self)@,
                final(self)@,
                PendingEntry { name: name@, time: time@ },
                event,
            ),
    {
        let mut slot: usize = 0;
        while slot < self.pending.len() && Self::stands_ahead(&self.pending[slot], time, &event)
            invariant
                slot <= self.pending.len(),
                forall|i: int| 0 <= i < slot ==> (#[trigger] self.pending@[i]).time@ <= time@,
            decreases self.pending.len() - slot,
        {
            slot += 1;
        }
        let item = Pending { name, time, event };
        proof {
            let queue = entries(self.pending@);
            assert forall|i: int| slot <= i < queue.len() implies item.entry().time
                <= queue[i].time by {
                assert(queue[slot as int].time <= queue[i].time);
            }
            assert(slot_fits(queue, slot as int, item.entry()));
            lemma_insert_keeps_order(queue, slot as int, item.entry());
            lemma_entries_insert(self.pending@, slot as int, item);
        }
        self.pending.insert(slot, item);
    }

    /// Takes in `event` under the name and the execution time that it reports now.
    fn schedule(&mut self, event: E)
        requires
            old(self).well_formed(),
            !old(self)@.stopped,
        ensures
            final(self).well_formed(),
            !final(self)@.stopped,
            inserted(old(self)@.pending, final(self)@.pending, entry_of::<T, E>(event)),
            inserted_with(old(self)@, final(self)@, entry_of::<T, E>(event), event),
    {
        let name = String::from_str(event.name());
        let time: SimTime = event.execution_time();
        self.insert(name, time, event);
    }

    /// Drops every pending event called `name`.
    fn cancel(&mut self, name: &String)
        requires
            old(self).well_formed(),
        ensures
            final(self).well_formed(),
            final(self)@.stopped == old(self)@.stopped,
            final(self)@.pending == without_name(old(self)@.pending, name@),
            final(self)@.events == kept_events(old(self)@.pending, old(self)@.events, name@),
    {
        let ghost before = self@.pending;
        let ghost held = self@.events;
        let mut at: usize = 0;
        proof {
            reveal(Seq::filter);
            assert(before.take(0) =~= Seq::<PendingEntry>::empty());
            assert(before.skip(0) =~= before);
            assert(held.skip(0) =~= held);
        }
        while at < self.pending.len()
            invariant
                self.well_formed(),
                before == old(self)@.pending,
                held == old(self)@.events,
                held.len() == before.len(),
                self@.stopped == old(self)@.stopped,
                at <= self.pending.len() <= before.len(),
                self@.events =~= kept_events(
                    before.take(at + before.len() - self.pending.len()),
                    held.take(at + before.len() - self.pending.len()),
                    name@,
                ) + held.skip(at + before.len() - self.pending.len()),
                at == without_name(
                    before.take(at + before.len() - self.pending.len()),
                    name@,
                ).len(),
                self@.pending =~= without_name(
                    before.take(at + before.len() - self.pending.len()),
                    name@,
                ) + before.skip(at + before.len() - self.pending.len()),
            decreases self.pending.len() - at,
        {
            let ghost seen = at + before.len() - self.pending.len();
            proof {
                reveal(Seq::filter);
                assert(before.take(seen + 1).drop_last() =~= before.take(seen));
                assert(before.take(seen + 1).last() == before[seen]);
                assert(held.take(seen + 1).drop_last() =~= held.take(seen));
                assert(held.take(seen + 1).last() == held[seen]);
                assert(self@.pending[at as int] == before[seen]);
                assert(self@.events[at as int] == held[seen]);
            }
            if self.pending[at].name == *name {
                proof {
                    lemma_remove_keeps_order(entries(self.pending@), at as int);
                    lemma_entries_remove(self.pending@, at as int);
                }
                let _ = self.pending.remove(at);
            } else {
                at += 1;
            }
        }
        proof {
            assert(before.take(before.len() as int) =~= before);
            assert(held.take(before.len() as int) =~= held);
        }
    }

    /// Drops every pending event and takes in no more.
    fn stop(&mut self)
        ensures
            final(self).well_formed(),
            final(self)@.stopped,
            final(self)@.pending == Seq::<PendingEntry>::empty(),
            final(self)@.events == Seq::<E>::empty(),
    {
        proof {
            assert(entries(Seq::<Pending<E>>::empty()) =~= Seq::<PendingEntry>::empty());
            assert(events_of(Seq::<Pending<E>>::empty()) =~= Seq::<E>::empty());
        }
        self.pending.clear();
        self.stopped = true;
    }

    /// Puts back the next occurrence of an event that has just fired, if it lies in the
    /// future: an occurrence that is due later than `now` goes in at a slot that keeps the
    /// time order, any other is dropped and the recurrence ends.
    pub fn requeue(&mut self, name: String, time: SimTime, event: E, now: SimTime)
        requires
            old(self).well_formed(),
            !old(self)@.stopped,
        ensures
            final(self).well_formed(),
            !final(self)@.stopped,
            time@ > now@ ==> inserted(
                old(self)@.pending,
                final(self)@.pending,
                PendingEntry { name: name@, time: time@ },
            ),
            time@ > now@ ==> inserted_with(
                old(self)@,
                final(self)@,
                PendingEntry { name: name@, time: time@ },
                event,
            ),
            time@ <= now@ ==> final(self)@ == old(self)@,
    {
        if time.as_micros() > now.as_micros() {
            self.insert(name, time, event);
        }
    }

    /// Fires the earliest pending event if it is due at `now`.
    ///
    /// The event leaves the queue and its notification, with the name and the execution
    /// time under which it was pending, is handed back. Its next occurrence is computed once
    /// and put back only if it is due later than `now`, so the same occurrence never fires
    /// twice and a later firing of the same event carries a later time. Where nothing is
    /// due, nothing changes.
    pub fn fire_next(&mut self, now: SimTime) -> (fired: Option<EventNotification<T>>)
        requires
            old(self).well_formed(),
        ensures
            final(self).well_formed(),
            final(self)@.stopped == old(self)@.stopped,
            match fired {
                None => {
                    &&& due_len(old(self)@.pending, now@) == 0
                    &&& final(self)@ == old(self)@
                },
                Some(notification) => {
                    &&& due_len(old(self)@.pending, now@) > 0
                    &&& notification.name@ == old(self)@.pending[0].name
                    &&& notification.time@ == old(self)@.pending[0].time
                    &&& notification.time@ <= now@
                    &&& after_firing::<T, E>(old(self)@, final(self)@, now@)
                    &&& follows_firing(old(self)@.pending, final(self)@.pending, now@)
                    &&& due_len(final(self)@.pending, now@) == due_len(old(self)@.pending, now@)
                        - 1
                },
            },
    {
        if self.pending.len() == 0 {
            return None;
        }
        if self.pending[0].time.as_micros() > now.as_micros() {
            return None;
        }
        proof {
            lemma_remove_keeps_order(entries(self.pending@), 0);
            lemma_entries_remove(self.pending@, 0);
            assert(self@.pending.remove(0) =~= self@.pending.skip(1));
            assert(self@.events.remove(0) =~= self@.events.skip(1));
        }
        let head = self.pending.remove(0);
        let next = head.event.next_time();
        let next_time: SimTime = next.execution_time();
        let next_name = String::from_str(next.name());
        let ghost rest = self@.pending;
        self.requeue(next_name, next_time, next, now);
        proof {
            if next_time@ > now@ {
                let entry = PendingEntry { name: next_name@, time: next_time@ };
                let slot = choose|slot: int| #[trigger]
                    slot_fits(rest, slot, entry) && self@.pending == rest.insert(slot, entry);
                lemma_insert_later_keeps_due(rest, slot, entry, now@);
            }
        }
        Some(EventNotification { name: head.name, time: head.time })
    }

    /// Fires every pending event that is due at `now`, earliest first, and hands back the
    /// notifications in firing order.
    ///
    /// The notifications are exactly the due entries at the head of the queue, so their
    /// times never decrease and none is later than `now`. What stays pending is due later
    /// than `now`: the entries that were not due, and a next occurrence for those fired
    /// events that recur in the future. Where nothing is due nothing changes, and a stopped
    /// scheduler fires nothing.
    pub fn fire_due(&mut self, now: SimTime) -> (fired: Vec<EventNotification<T>>)
        requires
            old(self).well_formed(),
        ensures
            final(self).well_formed(),
            final(self)@.stopped == old(self)@.stopped,
            old(self)@.stopped ==> fired@.len() == 0,
            fired@.len() == due_len(old(self)@.pending, now@),
            fired@.len() == 0 ==> final(self)@ == old(self)@,
            after_firings::<T, E>(old(self)@, final(self)@, now@, fired@.len() as nat),
            forall|i: int|
                0 <= i < fired@.len() ==> {
                    &&& (#[trigger] fired@[i]).name@ == old(self)@.pending[i].name
                    &&& fired@[i].time@ == old(self)@.pending[i].time
                    &&& fired@[i].time@ <= now@
                },
            forall|i: int, j: int|
                0 <= i <= j < fired@.len() ==> (#[trigger] fired@[i]).time@ <= (
                #[trigger] fired@[j]).time@,
            due_len(final(self)@.pending, now@) == 0,
            forall|i: int|
                0 <= i < final(self)@.pending.len() ==> (#[trigger] final(self)@.pending[i]).time
                    > now@,
            follows_firings(
                old(self)@.pending.skip(fired@.len() as int),
                final(self)@.pending,
                now@,
            ),
            final(self)@.pending.len() <= old(self)@.pending.len(),
    {
        let ghost before = self@.pending;
        let ghost due = due_len(before, now@);
        let mut fired: Vec<EventNotification<T>> = Vec::new();
        proof {
            lemma_due_len_bounds(before, now@);
            assert(before.take(due as int) =~= before.subrange(0, due as int));
            lemma_follows_itself(before.skip(due as int), now@);
        }
        loop
            invariant
                self.well_formed(),
                before == old(self)@.pending,
                is_time_ordered(before),
                due == due_len(before, now@),
                self@.stopped == old(self)@.stopped,
                fired@.len() + due_len(self@.pending, now@) == due,
                fired@.len() == 0 ==> self@ == old(self)@,
                after_firings::<T, E>(old(self)@, self@, now@, fired@.len() as nat),
                forall|i: int|
                    0 <= i < fired@.len() ==> {
                        &&& (#[trigger] fired@[i]).name@ == before[i].name
                        &&& fired@[i].time@ == before[i].time
                    },
                holds_rest(before, self@.pending, fired@.len() as int, due as int, now@),
            ensures
                due_len(self@.pending, now@) == 0,
                fired@.len() == due,
            decreases due_len(self@.pending, now@),
        {
            let ghost current = self@.pending;
            let ghost held = self@;
            match self.fire_next(now) {
                Some(notification) => {
                    proof {
                        assert(after_firing::<T, E>(held, self@, now@));
                        assert(after_firings::<T, E>(
                            old(self)@,
                            self@,
                            now@,
                            (fired@.len() + 1) as nat,
                        ));
                        lemma_due_len_bounds(before, now@);
                        lemma_holds_rest_step(
                            before,
                            current,
                            self@.pending,
                            fired@.len() as int,
                            due as int,
                            now@,
                        );
                        assert(current[0] == current.take(due - fired@.len())[0]);
                        assert(before.subrange(fired@.len() as int, due as int)[0]
                            == before[fired@.len() as int]);
                    }
                    fired.push(notification);
                },
                None => {
                    break ;
                },
            }
        }
        proof {
            assert(self@.pending.skip(0) =~= self@.pending);
            lemma_due_len_bounds(before, now@);
            lemma_rest_not_due(self@.pending, now@);
        }
        fired
    }

    /// Fires every pending event that is due at `now`, as `fire_due` does, and sends the
    /// notifications to the outbox in firing order.
    ///
    /// Where the outbox does not take a notification, because nobody listens any more, the
    /// notifications that are left are not sent and the call fails with `ActorClosed`.
    /// Where nothing is due nothing is sent, and the call succeeds.
    #[verifier::loop_isolation(false)]
    pub fn send_due(
        &mut self,
        now: SimTime,
        event_sender: &tokio::sync::mpsc::UnboundedSender<EventNotification<T>>,
    ) -> (sent: Result<(), ToolboxError>)
        requires
            old(self).well_formed(),
        ensures
            final(self).well_formed(),
            final(self)@.stopped == old(self)@.stopped,
            due_len(old(self)@.pending, now@) == 0 ==> sent is Ok && final(self)@ == old(self)@,
            sent matches Err(error) ==> (error matches ToolboxError::ActorClosed(detail) && detail@
                == "Unable to communicate with actor "@ + "channel closed"@),
            due_len(final(self)@.pending, now@) == 0,
            forall|i: int|
                0 <= i < final(self)@.pending.len() ==> (#[trigger] final(self)@.pending[i]).time
                    > now@,
            follows_firings(
                old(self)@.pending.skip(due_len(old(self)@.pending, now@) as int),
                final(self)@.pending,
                now@,
            ),
            after_firings::<T, E>(
                old(self)@,
                final(self)@,
                now@,
                due_len(old(self)@.pending, now@),
            ),
            final(self)@.pending.len() <= old(self)@.pending.len(),
    {
        let mut fired = self.fire_due(now);
        while fired.len() > 0
            invariant
                fired@.len() > 0 ==> due_len(old(self)@.pending, now@) > 0,
            decreases fired.len(),
        {
            let notification = fired.remove(0);
            match send_message(event_sender, notification) {
                Ok(()) => {},
                Err(refused) => {
                    return Err(ToolboxError::from(refused));
                },
            }
        }
        Ok(())
    }

    /// Applies one command from the inbox and says what the loop is to do next.
    ///
    /// * `Schedule` takes the event in, at a slot that keeps the time order, and asks for
    ///   a wake-up.
    /// * `Cancel` drops every pending event of that name.
    /// * `Stop` drops all pending events and ends the loop; every later command fails with
    ///   `ActorClosed` and changes nothing.
    pub fn handle_command(&mut self, command: SchedulerCommand<E>) -> (outcome: Result<
        CommandOutcome,
        ToolboxError,
    >)
        requires
            old(self).well_formed(),
        ensures
            final(self).well_formed(),
            old(self)@.stopped ==> {
                &&& outcome matches Err(ToolboxError::ActorClosed(detail))
                &&& detail@ == "Unable to communicate with actor channel closed"@
                &&& final(self)@ == old(self)@
            },
            !old(self)@.stopped ==> match command {
                SchedulerCommand::Schedule(event) => {
                    &&& outcome == Ok::<CommandOutcome, ToolboxError>(CommandOutcome::Wake)
                    &&& !final(self)@.stopped
                    &&& final(self)@.pending.len() == old(self)@.pending.len() + 1
                    &&& inserted(
                        old(self)@.pending,
                        final(self)@.pending,
                        entry_of::<T, E>(event),
                    )
                    &&& inserted_with(old(self)@, final(self)@, entry_of::<T, E>(event), event)
                },
                SchedulerCommand::Cancel { name } => {
                    &&& outcome == Ok::<CommandOutcome, ToolboxError>(CommandOutcome::Continue)
                    &&& !final(self)@.stopped
                    &&& final(self)@.pending == without_name(old(self)@.pending, name@)
                    &&& final(self)@.events == kept_events(
                        old(self)@.pending,
                        old(self)@.events,
                        name@,
                    )
                },
                SchedulerCommand::Stop => {
                    &&& outcome == Ok::<CommandOutcome, ToolboxError>(CommandOutcome::Terminate)
                    &&& final(self)@.stopped
                    &&& final(self)@.pending == Seq::<PendingEntry>::empty()
                    &&& final(self)@.events == Seq::<E>::empty()
                },
            },
    {
        if self.stopped {
            return Err(
                ToolboxError::ActorClosed(
                    String::from_str("Unable to communicate with actor channel closed"),
                ),
            );
        }
        match command {
            SchedulerCommand::Schedule(event) => {
                self.schedule(event);
                proof {
                    lemma_inserted_adds_one(
                        old(self)@.pending,
                        self@.pending,
                        entry_of::<T, E>(event),
                    );
                }
                Ok(CommandOutcome::Wake)
            },
            SchedulerCommand::Cancel { name } => {
                self.cancel(&name);
                Ok(CommandOutcome::Continue)
            },
            SchedulerCommand::Stop => {
                self.stop();
                Ok(CommandOutcome::Terminate)
            },
        }
    }
}

} // verus!
