//! Jobs: their status, stored record and API requests.

use vstd::prelude::*;
use crate::text::str_eq;

verus! {

/// The lifecycle status of a job: `pending` until a worker claims it,
/// `running` while its webhook executes, then `completed` or `dead`.
#[derive(Debug, Clone, Copy, PartialEq, Eq, Structural)]
pub enum JobStatus {
    Pending,
    Running,
    Completed,
    Dead,
}

/// The name under which a status is stored and reported.
pub open spec fn status_name(s: JobStatus) -> Seq<char> {
    match s {
        JobStatus::Pending => "pending"@,
        JobStatus::Running => "running"@,
        JobStatus::Completed => "completed"@,
        JobStatus::Dead => "dead"@,
    }
}

/// The status a stored name denotes, if any.
pub open spec fn status_from_name(s: Seq<char>) -> Option<JobStatus> {
    if s == "pending"@ {
        Some(JobStatus::Pending)
    } else if s == "running"@ {
        Some(JobStatus::Running)
    } else if s == "completed"@ {
        Some(JobStatus::Completed)
    } else if s == "dead"@ {
        Some(JobStatus::Dead)
    } else {
        None
    }
}

impl JobStatus {
    /// The stored name of the status.
    pub fn as_str(&self) -> (r: &'static str)
        ensures
            r@ == status_name(*self),
    {
        match self {
            JobStatus::Pending => "pending",
            JobStatus::Running => "running",
            JobStatus::Completed => "completed",
            JobStatus::Dead => "dead",
        }
    }

    /// Parses a stored status name; any other text gives `None`.
    pub fn from_str_value(s: &str) -> (r: Option<Self>)
        ensures
            r == status_from_name(s@),
    {
        if str_eq(s, "pending") {
            Some(JobStatus::Pending)
        } else if str_eq(s, "running") {
            Some(JobStatus::Running)
        } else if str_eq(s, "completed") {
            Some(JobStatus::Completed)
        } else if str_eq(s, "dead") {
            Some(JobStatus::Dead)
        } else {
            None
        }
    }
}

/// The four status names are distinct.
proof fn lemma_status_names_distinct()
    ensures
        "pending"@ != "running"@,
        "pending"@ != "completed"@,
        "pending"@ != "dead"@,
        "running"@ != "completed"@,
        "running"@ != "dead"@,
        "completed"@ != "dead"@,
{
    reveal_strlit("pending");
    reveal_strlit("running");
    reveal_strlit("completed");
    reveal_strlit("dead");
    assert("pending"@[0] != "running"@[0]);
    assert("pending"@[0] != "completed"@[0]);
    assert("pending"@[0] != "dead"@[0]);
    assert("running"@[0] != "completed"@[0]);
    assert("running"@[0] != "dead"@[0]);
    assert("completed"@[0] != "dead"@[0]);
}

/// Every status survives the round trip through its stored name.
pub proof fn status_name_round_trip(s: JobStatus)
    ensures
        status_from_name(status_name(s)) == Some(s),
{
    lemma_status_names_distinct();
}

/// A name parses to a status exactly when it is that status's name.
pub proof fn status_parse_inverts_name(name: Seq<char>, s: JobStatus)
    ensures
        status_from_name(name) == Some(s) <==> name == status_name(s),
{
    lemma_status_names_distinct();
}

/// A stored job record.
#[derive(Debug, Clone, PartialEq)]
pub struct Job {
    pub id: String,
    pub queue_name: String,
    pub status: String,
    pub priority: i32,
    pub payload: String,
    pub callback_url: String,
    pub visible_at: String,
    pub attempt: i32,
    pub max_retries: i32,
    pub started_at: Option<String>,
    pub completed_at: Option<String>,
    pub worker_id: Option<String>,
    pub retry_backoff: Option<String>,
    pub base_delay_ms: Option<i32>,
    pub max_delay_ms: Option<i32>,
    pub last_error: Option<String>,
    pub result: Option<String>,
    pub idempotency_key: Option<String>,
    pub timeout_ms: i32,
    pub created_at: String,
    pub updated_at: String,
}

/// A request to enqueue a job. `payload` holds the request's JSON payload
/// already rendered as text.
#[derive(Debug, Clone, PartialEq)]
pub struct CreateJobRequest {
    pub queue_name: Option<String>,
    pub priority: Option<i32>,
    pub payload: Option<String>,
    pub callback_url: String,
    pub max_retries: Option<i32>,
    pub retry_backoff: Option<String>,
    pub base_delay_ms: Option<i32>,
    pub max_delay_ms: Option<i32>,
    pub idempotency_key: Option<String>,
    pub timeout_ms: Option<i32>,
    pub delay_ms: Option<i64>,
}

/// A job as the API returns it.
#[derive(Debug, Clone, PartialEq)]
pub struct JobResponse {
    pub job: Job,
}

/// Filters and paging for listing jobs.
#[derive(Debug, Clone, PartialEq)]
pub struct ListJobsQuery {
    pub queue: Option<String>,
    pub status: Option<String>,
    pub limit: Option<i64>,
    pub offset: Option<i64>,
}

} // verus!
