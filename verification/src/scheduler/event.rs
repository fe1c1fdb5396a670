//! Events and the record of their firing.
use vstd::prelude::*;
use vstd::string::*;

use crate::time::sim_time::decimal_digits;
use crate::time::{Clock, SimTime};

verus! {

/// event to be scheduled
///
/// The scheduler asks an event for its name and its execution time once, when it takes the
/// event in, and fires and cancels it by what it answered then. Events fire in the order of
/// their execution times; the order of the events themselves decides which of two events
/// that are due at the same time fires first.
///
/// What an event answers depends on nothing but the event: `name_of`, `due_at` and
/// `successor` say what `name`, `execution_time` and `next_time` give.
pub trait Event<T: Clock>: Ord + Send + Sync + Sized {
    /// The name of the event: what `name` gives.
    spec fn name_of(&self) -> &str;

    /// The time to execute the event: what `execution_time` gives.
    spec fn due_at(&self) -> T::Time;

    /// The next occurrence of the event: what `next_time` gives.
    spec fn successor(&self) -> Self;

    /// name of event
    fn name(&self) -> (name: &str)
        ensures
            name@ == self.name_of()@,
    ;

    /// time to execute event
    fn execution_time(&self) -> (time: T::Time)
        ensures
            time == self.due_at(),
    ;

    /// next time to execute event
    fn next_time(&self) -> (next: Self)
        ensures
            next == self.successor(),
    ;

    /// number of times to execute event
    fn count(&self, new_count: u64) -> Self;
}

/// Notification event occured
#[derive(Debug)]
pub struct EventNotification<T: Clock> {
    pub name: String,
    pub time: T::Time,
}

impl<T: Clock> Clone for EventNotification<T> {
    fn clone(&self) -> (copy: Self)
        ensures
            copy.name@ == self.name@,
            copy.time == self.time,
    {
        EventNotification { name: self.name.clone(), time: self.time }
    }
}

impl<T: Clock> EventNotification<T> {
    /// name of event that occured
    pub fn name(&self) -> (name: &str)
        ensures
            name@ == self.name@,
    {
        self.name.as_str()
    }

    /// time the event occured
    pub fn time(&self) -> (time: T::Time)
        ensures
            time == self.time,
    {
        self.time
    }
}

impl<T: Clock<Time = SimTime>> EventNotification<T> {
    /// The notification as text: the name, a colon and a space, and the time in microseconds.
    pub fn to_string(&self) -> (text: String)
        ensures
            text@ == self.name@ + ": "@ + decimal_digits(self.time@),
    {
        let time = self.time.to_string();
        String::from_str(self.name.as_str()).concat(": ").concat(time.as_str())
    }
}

} // verus!
