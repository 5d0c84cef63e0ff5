//! Queues: their stored settings, statistics and API requests.
//!
//! A queue's rate limit is a floating-point number of requests per second;
//! the library carries it as the IEEE-754 bit pattern of that `f64`
//! (`f64::to_bits`), unchanged, and never computes with it.

use vstd::prelude::*;

verus! {

/// A stored queue record. `rate_limit_rps` is the bit pattern of the limit.
#[derive(Debug, Clone, PartialEq)]
pub struct Queue {
    pub name: String,
    pub max_concurrency: i32,
    pub rate_limit_rps: Option<u64>,
    pub max_retries: i32,
    pub retry_backoff: String,
    pub base_delay_ms: i32,
    pub max_delay_ms: i32,
    pub paused: i32,
    pub created_at: String,
    pub updated_at: String,
}

/// A queue with its job counts by status.
#[derive(Debug, Clone, PartialEq)]
pub struct QueueStats {
    pub name: String,
    pub max_concurrency: i32,
    pub paused: bool,
    pub pending: i64,
    pub running: i64,
    pub completed: i64,
    pub dead: i64,
}

/// A request to create a queue. `rate_limit_rps` is the bit pattern of the limit.
#[derive(Debug, Clone, PartialEq)]
pub struct CreateQueueRequest {
    pub name: String,
    pub max_concurrency: Option<i32>,
    pub rate_limit_rps: Option<u64>,
    pub max_retries: Option<i32>,
    pub retry_backoff: Option<String>,
    pub base_delay_ms: Option<i32>,
    pub max_delay_ms: Option<i32>,
}

/// A request to change some of a queue's settings. `rate_limit_rps` is the
/// bit pattern of the limit.
#[derive(Debug, Clone, PartialEq)]
pub struct UpdateQueueRequest {
    pub max_concurrency: Option<i32>,
    pub rate_limit_rps: Option<u64>,
    pub max_retries: Option<i32>,
    pub retry_backoff: Option<String>,
    pub base_delay_ms: Option<i32>,
    pub max_delay_ms: Option<i32>,
}

} // verus!
