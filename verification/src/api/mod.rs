//! The HTTP API's logic: request validation, SQL statement planning and the
//! answers to give for what the database reported.

pub mod error;
pub mod jobs;
pub mod queues;
pub mod schedules;
pub mod metrics;
