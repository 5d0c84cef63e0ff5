//! The scheduler's computation: what firing a due schedule changes and the
//! job it enqueues.

use vstd::prelude::*;
use vstd::string::*;
use crate::api::error::{ApiError, is_bad_request};
use crate::api::schedules::{compute_next_run, is_next_run_of};
use crate::cron_support::{cron_accepts, cron_error_message};
use crate::ids::new_id;
use crate::models::schedule::Schedule;

verus! {

/// A job enqueued by a schedule: the schedule's queue, payload, callback
/// and retry settings under a fresh id. It is inserted with
/// `INSERT INTO jobs (id, queue_name, payload, callback_url, max_retries,
/// timeout_ms)`, every other column taking its default.
#[derive(Debug, Clone, PartialEq)]
pub struct ScheduledJob {
    pub id: String,
    pub queue_name: String,
    pub payload: String,
    pub callback_url: String,
    pub max_retries: i32,
    pub timeout_ms: i32,
}

/// `j` is a job of schedule `s`: its fields copied, under a fresh id.
pub open spec fn job_of_schedule(j: ScheduledJob, s: Schedule) -> bool {
    &&& j.id@.len() == 36
    &&& j.queue_name == s.queue_name
    &&& j.payload == s.payload
    &&& j.callback_url == s.callback_url
    &&& j.max_retries == s.max_retries
    &&& j.timeout_ms == s.timeout_ms
}

/// The job a due schedule enqueues.
pub fn scheduled_job(schedule: &Schedule) -> (j: ScheduledJob)
    ensures
        job_of_schedule(j, *schedule),
{
    ScheduledJob {
        id: new_id(),
        queue_name: schedule.queue_name.clone(),
        payload: schedule.payload.clone(),
        callback_url: schedule.callback_url.clone(),
        max_retries: schedule.max_retries,
        timeout_ms: schedule.timeout_ms,
    }
}

/// Firing one due schedule: the schedule row is updated with
/// `SET last_run_at = fired_at, next_run_at = next_run_at` only where its
/// `next_run_at` still equals `expected_next_run_at` (so that of two
/// schedulers only one fires it), and only then is `job` inserted.
#[derive(Debug, Clone, PartialEq)]
pub struct ScheduleFiring {
    pub schedule_id: String,
    pub fired_at: String,
    pub next_run_at: String,
    pub expected_next_run_at: Option<String>,
    pub job: ScheduledJob,
}

/// What firing `schedule` at time `now` does once its next run time
/// `next_run_at` is known: its last run time becomes `now`, its next run
/// time `next_run_at`, guarded by the next run time it was read with, and
/// it enqueues its job.
pub fn schedule_firing_with(schedule: &Schedule, now: &str, next_run_at: String) -> (f: ScheduleFiring)
    ensures
        f.next_run_at == next_run_at,
        f.schedule_id == schedule.id,
        f.fired_at@ == now@,
        f.expected_next_run_at == schedule.next_run_at,
        job_of_schedule(f.job, *schedule),
{
    let expected_next_run_at = match &schedule.next_run_at {
        Some(n) => Some(n.clone()),
        None => None,
    };
    ScheduleFiring {
        schedule_id: schedule.id.clone(),
        fired_at: String::from_str(now),
        next_run_at,
        expected_next_run_at,
        job: scheduled_job(schedule),
    }
}

/// Decides what firing `schedule` at time `now` does: its next run time
/// moves to the next instant its cron expression fires, its last run time
/// becomes `now`, and it enqueues its job (`schedule_firing_with`). A
/// schedule whose expression does not parse, or never fires again, is
/// skipped with the error that `compute_next_run` gives.
pub fn plan_schedule_firing(schedule: &Schedule, now: &str) -> (r: Result<ScheduleFiring, ApiError>)
    ensures
        !cron_accepts(schedule.cron_expression@) ==> (r matches Err(e) && is_bad_request(
            e,
            "Invalid cron expression: "@ + cron_error_message(schedule.cron_expression@),
        )),
        cron_accepts(schedule.cron_expression@) ==> (r is Ok || (r matches Err(e) && is_bad_request(
            e,
            "Cron expression has no upcoming runs"@,
        ))),
        r matches Ok(f) ==> {
            &&& is_next_run_of(schedule.cron_expression@, f.next_run_at@)
            &&& f.schedule_id == schedule.id
            &&& f.fired_at@ == now@
            &&& f.expected_next_run_at == schedule.next_run_at
            &&& job_of_schedule(f.job, *schedule)
        },
{
    match compute_next_run(schedule.cron_expression.as_str()) {
        Ok(n) => Ok(schedule_firing_with(schedule, now, n)),
        Err(e) => Err(e),
    }
}

} // verus!
