//! Event-sourced discussion threads: a write aggregate that produces events,
//! a read projection folded from the same events, and an in-memory store that
//! appends under optimistic concurrency and keeps the projection in step.
use vstd::prelude::*;

pub mod date_time;
pub mod handler;
pub mod port;
pub mod read;
pub mod shared;
pub mod store;
pub mod write;

verus! {

} // verus!
