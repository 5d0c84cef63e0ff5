//! The records the job runner stores and the requests that create them.

pub mod job;
pub mod queue;
pub mod schedule;
