//! Cron schedules: their stored record and API requests.

use vstd::prelude::*;

verus! {

/// A stored schedule record.
#[derive(Debug, Clone, PartialEq)]
pub struct Schedule {
    pub id: String,
    pub queue_name: String,
    pub cron_expression: String,
    pub callback_url: String,
    pub payload: String,
    pub max_retries: i32,
    pub timeout_ms: i32,
    pub enabled: i32,
    pub last_run_at: Option<String>,
    pub next_run_at: Option<String>,
    pub created_at: String,
    pub updated_at: String,
}

/// A request to create a schedule. `payload` holds the JSON payload
/// already rendered as text.
#[derive(Debug, Clone, PartialEq)]
pub struct CreateScheduleRequest {
    pub queue_name: Option<String>,
    pub cron_expression: String,
    pub callback_url: String,
    pub payload: Option<String>,
    pub max_retries: Option<i32>,
    pub timeout_ms: Option<i32>,
    pub enabled: Option<bool>,
}

/// A request to change some of a schedule's fields. `payload` holds the
/// JSON payload already rendered as text.
#[derive(Debug, Clone, PartialEq)]
pub struct UpdateScheduleRequest {
    pub queue_name: Option<String>,
    pub cron_expression: Option<String>,
    pub callback_url: Option<String>,
    pub payload: Option<String>,
    pub max_retries: Option<i32>,
    pub timeout_ms: Option<i32>,
    pub enabled: Option<bool>,
}

} // verus!
