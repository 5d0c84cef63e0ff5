//! Worker-side logic: retry backoff, rate limiting, webhook classification,
//! job outcome planning and the scheduler's and cleanup task's computations.

pub mod retry;
pub mod rate_limiter;
pub mod executor;
pub mod engine;
pub mod cleanup;
pub mod scheduler;
