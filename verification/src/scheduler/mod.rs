//! The scheduler: events, the pending queue and the actor's decisions.
pub mod event;
pub mod internal;
pub mod queue;
