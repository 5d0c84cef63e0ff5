//! The worker engine's decisions: which queues to poll and in what order,
//! what a webhook's outcome does to the job, and the statements that
//! record it.

use vstd::prelude::*;
use vstd::string::*;
use rand::seq::SliceRandom;
use crate::api::jobs::{text_or, value_or};
use crate::config::DefaultsConfig;
use crate::models::job::{Job, JobStatus, status_name};
use crate::sqltime::{now_expr, now_plus_expr, now_plus_sql};
use crate::sqlbuild::{comma_list, comma_list_push};
use crate::text::{contains_middle, has_prefix, nat_digits, seq_contains, u64_decimal};
use crate::worker::executor::WebhookResult;
use crate::worker::rate_limiter::{BucketView, RateLimiter, check_apply, check_outcome};
use crate::worker::retry::{compute_delay_ms, delay_for_jitter, delay_inputs_ok, delay_spec, jitter_in_range};

verus! {

/// What to record for a job once its webhook has run.
#[derive(Debug, Clone, PartialEq)]
pub enum JobUpdate {
    /// The job completed; `result` is the webhook's answer body, if any.
    Complete { result: Option<String> },
    /// The job is dead: retries are exhausted or cannot help.
    DeadLetter { error: String },
    /// The job goes back to pending, visible again after `delay_ms`.
    Retry { error: String, delay_ms: i64 },
}

/// The backoff strategy for a job: its own, else the configured default.
pub open spec fn backoff_of(job: Job, defaults: DefaultsConfig) -> Seq<char> {
    text_or(job.retry_backoff, defaults.retry_backoff@)
}

/// The base delay for a job: its own, else the configured default.
pub open spec fn base_delay_of(job: Job, defaults: DefaultsConfig) -> i32 {
    value_or(job.base_delay_ms, defaults.base_delay_ms)
}

/// The delay cap for a job: its own, else the configured default.
pub open spec fn max_delay_of(job: Job, defaults: DefaultsConfig) -> i32 {
    value_or(job.max_delay_ms, defaults.max_delay_ms)
}

/// The inputs on which retrying a job is defined (see `delay_inputs_ok`).
pub open spec fn retry_inputs_ok(job: Job, defaults: DefaultsConfig) -> bool {
    delay_inputs_ok(job.attempt as int, backoff_of(job, defaults))
}

/// The delay for a retry of `job` with jitter `j`.
pub open spec fn retry_delay(job: Job, defaults: DefaultsConfig, j: int) -> int {
    delay_spec(
        job.attempt as int,
        backoff_of(job, defaults),
        base_delay_of(job, defaults) as int,
        max_delay_of(job, defaults) as int,
        j,
    )
}

/// What a transient failure with text `error` does to `job`: once its
/// attempts reach its retry limit it is dead, else it is retried after the
/// backoff delay for some jitter draw.
pub open spec fn failure_outcome(job: Job, defaults: DefaultsConfig, error: Seq<char>, u: JobUpdate) -> bool {
    if job.attempt >= job.max_retries {
        u matches JobUpdate::DeadLetter { error: e } && e@ == error
    } else {
        u matches JobUpdate::Retry { error: e, delay_ms: d } && e@ == error
            && exists|j: int| jitter_in_range(j) && d == retry_delay(job, defaults, j)
    }
}

fn backoff_str<'a>(job: &'a Job, defaults: &'a DefaultsConfig) -> (r: &'a str)
    ensures
        r@ == backoff_of(*job, *defaults),
{
    match &job.retry_backoff {
        Some(b) => b.as_str(),
        None => defaults.retry_backoff.as_str(),
    }
}

/// The outcome of a transient failure for a given jitter draw: dead once
/// the attempts reach the retry limit, else a retry after the backoff delay.
pub fn failure_update_with(job: &Job, defaults: &DefaultsConfig, error: String, jitter_ppm: i64) -> (r: JobUpdate)
    requires
        job.attempt < job.max_retries ==> retry_inputs_ok(*job, *defaults),
        jitter_in_range(jitter_ppm as int),
    ensures
        job.attempt >= job.max_retries ==> r == (JobUpdate::DeadLetter { error }),
        job.attempt < job.max_retries ==> r == (JobUpdate::Retry {
            error,
            delay_ms: retry_delay(*job, *defaults, jitter_ppm as int) as i64,
        }),
{
    if job.attempt >= job.max_retries {
        return JobUpdate::DeadLetter { error };
    }
    let base = match job.base_delay_ms {
        Some(b) => b,
        None => defaults.base_delay_ms,
    };
    let max = match job.max_delay_ms {
        Some(m) => m,
        None => defaults.max_delay_ms,
    };
    let delay_ms = delay_for_jitter(job.attempt, backoff_str(job, defaults), base, max, jitter_ppm);
    JobUpdate::Retry { error, delay_ms }
}

/// The outcome of a transient failure: dead once the attempts reach the
/// retry limit, else a retry after the backoff delay with random jitter.
pub fn retry_or_dead_letter(job: &Job, defaults: &DefaultsConfig, error: String) -> (r: JobUpdate)
    requires
        job.attempt < job.max_retries ==> retry_inputs_ok(*job, *defaults),
    ensures
        failure_outcome(*job, *defaults, error@, r),
{
    if job.attempt >= job.max_retries {
        return JobUpdate::DeadLetter { error };
    }
    let base = match job.base_delay_ms {
        Some(b) => b,
        None => defaults.base_delay_ms,
    };
    let max = match job.max_delay_ms {
        Some(m) => m,
        None => defaults.max_delay_ms,
    };
    let delay_ms = compute_delay_ms(job.attempt, backoff_str(job, defaults), base, max);
    JobUpdate::Retry { error, delay_ms }
}

/// What a webhook's result does to its job: success completes it with the
/// answer body; a permanent (4xx) failure kills it at once; a transient
/// failure, connection error or timeout ("Webhook timeout") retries it
/// until its attempts reach its retry limit.
pub fn handle_result(job: &Job, defaults: &DefaultsConfig, result: WebhookResult) -> (r: JobUpdate)
    requires
        job.attempt < job.max_retries ==> retry_inputs_ok(*job, *defaults),
    ensures
        match result {
            WebhookResult::Success(body) => r == (JobUpdate::Complete { result: body }),
            WebhookResult::PermanentFailure(e) => r == (JobUpdate::DeadLetter { error: e }),
            WebhookResult::TransientFailure(e) => failure_outcome(*job, *defaults, e@, r),
            WebhookResult::ConnectionError(e) => failure_outcome(*job, *defaults, e@, r),
            WebhookResult::Timeout => failure_outcome(*job, *defaults, "Webhook timeout"@, r),
        },
{
    match result {
        WebhookResult::Success(body) => JobUpdate::Complete { result: body },
        WebhookResult::PermanentFailure(e) => JobUpdate::DeadLetter { error: e },
        WebhookResult::TransientFailure(e) => retry_or_dead_letter(job, defaults, e),
        WebhookResult::ConnectionError(e) => retry_or_dead_letter(job, defaults, e),
        WebhookResult::Timeout => retry_or_dead_letter(job, defaults, String::from_str("Webhook timeout")),
    }
}

/// The status a job takes on when `u` is recorded.
pub open spec fn target_status(u: JobUpdate) -> JobStatus {
    match u {
        JobUpdate::Complete { .. } => JobStatus::Completed,
        JobUpdate::DeadLetter { .. } => JobStatus::Dead,
        JobUpdate::Retry { .. } => JobStatus::Pending,
    }
}

/// The UPDATE recording `u` for a job: `?1` takes the job id and `?2` the
/// result (for a completion) or the error text.
pub open spec fn update_statement_spec(u: JobUpdate) -> Seq<char> {
    "UPDATE jobs SET status = '"@ + status_name(target_status(u)) + "', "@ + match u {
        JobUpdate::Complete { .. } =>
            "completed_at = "@ + now_expr() + ", result = ?2, updated_at = "@ + now_expr() + " WHERE id = ?1"@,
        JobUpdate::DeadLetter { .. } =>
            "completed_at = "@ + now_expr() + ", last_error = ?2, updated_at = "@ + now_expr() + " WHERE id = ?1"@,
        JobUpdate::Retry { delay_ms, .. } =>
            "visible_at = "@ + now_plus_expr(delay_ms as nat)
                + ", last_error = ?2, worker_id = NULL, started_at = NULL, updated_at = "@ + now_expr()
                + " WHERE id = ?1"@,
    }
}

/// The statement that records `u`. A retry becomes visible again after its
/// delay; completion and dead-lettering stamp the completion time.
pub fn update_statement(u: &JobUpdate) -> (r: String)
    requires
        u matches JobUpdate::Retry { delay_ms, .. } ==> delay_ms >= 0,
    ensures
        r@ == update_statement_spec(*u),
{
    let now = "strftime('%Y-%m-%dT%H:%M:%f', 'now')";
    let status = match u {
        JobUpdate::Complete { .. } => JobStatus::Completed,
        JobUpdate::DeadLetter { .. } => JobStatus::Dead,
        JobUpdate::Retry { .. } => JobStatus::Pending,
    };
    let mut s = String::from_str("UPDATE jobs SET status = '");
    s.append(status.as_str());
    s.append("', ");
    match u {
        JobUpdate::Complete { .. } => {
            s.append("completed_at = ");
            s.append(now);
            s.append(", result = ?2, updated_at = ");
            s.append(now);
            s.append(" WHERE id = ?1");
        },
        JobUpdate::DeadLetter { .. } => {
            s.append("completed_at = ");
            s.append(now);
            s.append(", last_error = ?2, updated_at = ");
            s.append(now);
            s.append(" WHERE id = ?1");
        },
        JobUpdate::Retry { delay_ms, .. } => {
            let visible = now_plus_sql(*delay_ms as u64);
            s.append("visible_at = ");
            s.append(visible.as_str());
            s.append(", last_error = ?2, worker_id = NULL, started_at = NULL, updated_at = ");
            s.append(now);
            s.append(" WHERE id = ?1");
        },
    }
    assert(s@ =~= update_statement_spec(*u));
    s
}

/// The outcome of every webhook result moves a running job along the
/// documented lifecycle: success to `completed`, a permanent failure to
/// `dead`, a transient one back to `pending` while retries remain and to
/// `dead` once they are exhausted; the statement recording the outcome sets
/// exactly that status.
pub proof fn outcome_follows_lifecycle(job: Job, defaults: DefaultsConfig, result: WebhookResult, u: JobUpdate)
    requires
        match result {
            WebhookResult::Success(body) => u == (JobUpdate::Complete { result: body }),
            WebhookResult::PermanentFailure(e) => u == (JobUpdate::DeadLetter { error: e }),
            WebhookResult::TransientFailure(e) => failure_outcome(job, defaults, e@, u),
            WebhookResult::ConnectionError(e) => failure_outcome(job, defaults, e@, u),
            WebhookResult::Timeout => failure_outcome(job, defaults, "Webhook timeout"@, u),
        },
    ensures
        result is Success ==> target_status(u) == JobStatus::Completed,
        result is PermanentFailure ==> target_status(u) == JobStatus::Dead,
        !(result is Success) && !(result is PermanentFailure) ==> target_status(u) == (
            if job.attempt >= job.max_retries { JobStatus::Dead } else { JobStatus::Pending }),
        has_prefix(update_statement_spec(u), "UPDATE jobs SET status = '"@ + status_name(target_status(u)) + "', "@),
{
    let p = "UPDATE jobs SET status = '"@ + status_name(target_status(u)) + "', "@;
    let full = update_statement_spec(u);
    let rest = full.subrange(p.len() as int, full.len() as int);
    assert(full =~= p + rest);
    assert(full.subrange(0, p.len() as int) =~= p);
}

/// The text an outcome records goes to the column that holds it: a
/// completion's result (`?2`) is written to `result`, the error text of a
/// dead-lettered or retried job to `last_error`.
pub proof fn outcome_text_goes_to_its_column(u: JobUpdate)
    ensures
        u is Complete ==> seq_contains(update_statement_spec(u), ", result = ?2, "@),
        !(u is Complete) ==> seq_contains(update_statement_spec(u), ", last_error = ?2, "@),
{
    reveal_strlit(", result = ?2, updated_at = ");
    reveal_strlit(", result = ?2, ");
    reveal_strlit(", last_error = ?2, updated_at = ");
    reveal_strlit(", last_error = ?2, worker_id = NULL, started_at = NULL, updated_at = ");
    reveal_strlit(", last_error = ?2, ");
    reveal_strlit("updated_at = ");
    reveal_strlit("worker_id = NULL, started_at = NULL, updated_at = ");
    let head = "UPDATE jobs SET status = '"@ + status_name(target_status(u)) + "', "@;
    match u {
        JobUpdate::Complete { .. } => {
            let pat = ", result = ?2, "@;
            assert(", result = ?2, updated_at = "@ =~= pat + "updated_at = "@);
            let pre = head + "completed_at = "@ + now_expr();
            let post = "updated_at = "@ + now_expr() + " WHERE id = ?1"@;
            assert(update_statement_spec(u) =~= pre + pat + post);
            contains_middle(pre, pat, post);
        },
        JobUpdate::DeadLetter { .. } => {
            let pat = ", last_error = ?2, "@;
            assert(", last_error = ?2, updated_at = "@ =~= pat + "updated_at = "@);
            let pre = head + "completed_at = "@ + now_expr();
            let post = "updated_at = "@ + now_expr() + " WHERE id = ?1"@;
            assert(update_statement_spec(u) =~= pre + pat + post);
            contains_middle(pre, pat, post);
        },
        JobUpdate::Retry { delay_ms, .. } => {
            let pat = ", last_error = ?2, "@;
            assert(", last_error = ?2, worker_id = NULL, started_at = NULL, updated_at = "@
                =~= pat + "worker_id = NULL, started_at = NULL, updated_at = "@);
            let pre = head + "visible_at = "@ + now_plus_expr(delay_ms as nat);
            let post = "worker_id = NULL, started_at = NULL, updated_at = "@ + now_expr() + " WHERE id = ?1"@;
            assert(update_statement_spec(u) =~= pre + pat + post);
            contains_middle(pre, pat, post);
        },
    }
}

/// `col = value`, one item of a SET list.
pub open spec fn set_item(col: Seq<char>, value: Seq<char>) -> Seq<char> {
    col + " = "@ + value
}

/// The columns an outcome sets, and to what: the status it moves the job
/// to; a completion or a dead letter stamps `completed_at` and stores its
/// text (`?2`) in `result` or `last_error` respectively; a retry becomes
/// visible after its delay, stores its error in `last_error` and releases
/// the worker; every outcome refreshes `updated_at`.
pub open spec fn outcome_assignments(u: JobUpdate) -> Seq<Seq<char>> {
    let status = set_item("status"@, seq!['\''] + status_name(target_status(u)) + seq!['\'']);
    match u {
        JobUpdate::Complete { .. } => seq![
            status, set_item("completed_at"@, now_expr()), set_item("result"@, "?2"@),
            set_item("updated_at"@, now_expr()),
        ],
        JobUpdate::DeadLetter { .. } => seq![
            status, set_item("completed_at"@, now_expr()), set_item("last_error"@, "?2"@),
            set_item("updated_at"@, now_expr()),
        ],
        JobUpdate::Retry { delay_ms, .. } => seq![
            status, set_item("visible_at"@, now_plus_expr(delay_ms as nat)), set_item("last_error"@, "?2"@),
            set_item("worker_id"@, "NULL"@), set_item("started_at"@, "NULL"@), set_item("updated_at"@, now_expr()),
        ],
    }
}

proof fn lemma_complete_statement(u: JobUpdate)
    requires
        u is Complete,
    ensures
        update_statement_spec(u) == "UPDATE jobs SET "@ + comma_list(outcome_assignments(u)) + " WHERE id = ?1"@,
{
    reveal_strlit("UPDATE jobs SET status = '");
    reveal_strlit("UPDATE jobs SET ");
    reveal_strlit("', ");
    reveal_strlit(", ");
    reveal_strlit(" = ");
    reveal_strlit("status");
    reveal_strlit("completed_at = ");
    reveal_strlit("completed_at");
    reveal_strlit(", result = ?2, updated_at = ");
    reveal_strlit(", last_error = ?2, updated_at = ");
    reveal_strlit(", last_error = ?2, worker_id = NULL, started_at = NULL, updated_at = ");
    reveal_strlit("result");
    reveal_strlit("last_error");
    reveal_strlit("?2");
    reveal_strlit("updated_at");
    reveal_strlit("visible_at = ");
    reveal_strlit("visible_at");
    reveal_strlit("worker_id");
    reveal_strlit("started_at");
    reveal_strlit("NULL");
    let items = outcome_assignments(u);
    let st = set_item("status"@, seq!['\''] + status_name(target_status(u)) + seq!['\'']);
        let i1 = set_item("completed_at"@, now_expr());
        let i2 = set_item("result"@, "?2"@);
        let i3 = set_item("updated_at"@, now_expr());
        comma_list_push(seq![st], i1);
        comma_list_push(seq![st, i1], i2);
        comma_list_push(seq![st, i1, i2], i3);
        assert(seq![st, i1] =~= seq![st].push(i1));
        assert(seq![st, i1, i2] =~= seq![st, i1].push(i2));
        assert(seq![st, i1, i2, i3] =~= seq![st, i1, i2].push(i3));
        assert(comma_list(seq![st]) == st);
        assert(items =~= seq![st, i1, i2, i3]);
        assert(comma_list(items) == st + ", "@ + i1 + ", "@ + i2 + ", "@ + i3);
        assert(update_statement_spec(u) =~= "UPDATE jobs SET "@ + (st + ", "@ + i1 + ", "@ + i2 + ", "@ + i3)
            + " WHERE id = ?1"@);
}

proof fn lemma_dead_letter_statement(u: JobUpdate)
    requires
        u is DeadLetter,
    ensures
        update_statement_spec(u) == "UPDATE jobs SET "@ + comma_list(outcome_assignments(u)) + " WHERE id = ?1"@,
{
    reveal_strlit("UPDATE jobs SET status = '");
    reveal_strlit("UPDATE jobs SET ");
    reveal_strlit("', ");
    reveal_strlit(", ");
    reveal_strlit(" = ");
    reveal_strlit("status");
    reveal_strlit("completed_at = ");
    reveal_strlit("completed_at");
    reveal_strlit(", result = ?2, updated_at = ");
    reveal_strlit(", last_error = ?2, updated_at = ");
    reveal_strlit(", last_error = ?2, worker_id = NULL, started_at = NULL, updated_at = ");
    reveal_strlit("result");
    reveal_strlit("last_error");
    reveal_strlit("?2");
    reveal_strlit("updated_at");
    reveal_strlit("visible_at = ");
    reveal_strlit("visible_at");
    reveal_strlit("worker_id");
    reveal_strlit("started_at");
    reveal_strlit("NULL");
    let items = outcome_assignments(u);
    let st = set_item("status"@, seq!['\''] + status_name(target_status(u)) + seq!['\'']);
        let i1 = set_item("completed_at"@, now_expr());
        let i2 = set_item("last_error"@, "?2"@);
        let i3 = set_item("updated_at"@, now_expr());
        comma_list_push(seq![st], i1);
        comma_list_push(seq![st, i1], i2);
        comma_list_push(seq![st, i1, i2], i3);
        assert(seq![st, i1] =~= seq![st].push(i1));
        assert(seq![st, i1, i2] =~= seq![st, i1].push(i2));
        assert(seq![st, i1, i2, i3] =~= seq![st, i1, i2].push(i3));
        assert(comma_list(seq![st]) == st);
        assert(items =~= seq![st, i1, i2, i3]);
        assert(comma_list(items) == st + ", "@ + i1 + ", "@ + i2 + ", "@ + i3);
        assert(update_statement_spec(u) =~= "UPDATE jobs SET "@ + (st + ", "@ + i1 + ", "@ + i2 + ", "@ + i3)
            + " WHERE id = ?1"@);
}

proof fn lemma_retry_statement(u: JobUpdate)
    requires
        u is Retry,
    ensures
        update_statement_spec(u) == "UPDATE jobs SET "@ + comma_list(outcome_assignments(u)) + " WHERE id = ?1"@,
{
    reveal_strlit("UPDATE jobs SET status = '");
    reveal_strlit("UPDATE jobs SET ");
    reveal_strlit("', ");
    reveal_strlit(", ");
    reveal_strlit(" = ");
    reveal_strlit("status");
    reveal_strlit("completed_at = ");
    reveal_strlit("completed_at");
    reveal_strlit(", result = ?2, updated_at = ");
    reveal_strlit(", last_error = ?2, updated_at = ");
    reveal_strlit(", last_error = ?2, worker_id = NULL, started_at = NULL, updated_at = ");
    reveal_strlit("result");
    reveal_strlit("last_error");
    reveal_strlit("?2");
    reveal_strlit("updated_at");
    reveal_strlit("visible_at = ");
    reveal_strlit("visible_at");
    reveal_strlit("worker_id");
    reveal_strlit("started_at");
    reveal_strlit("NULL");
    let items = outcome_assignments(u);
    let st = set_item("status"@, seq!['\''] + status_name(target_status(u)) + seq!['\'']);
    let delay_ms = u->delay_ms;
        let i1 = set_item("visible_at"@, now_plus_expr(delay_ms as nat));
        let i2 = set_item("last_error"@, "?2"@);
        let i3 = set_item("worker_id"@, "NULL"@);
        let i4 = set_item("started_at"@, "NULL"@);
        let i5 = set_item("updated_at"@, now_expr());
        comma_list_push(seq![st], i1);
        comma_list_push(seq![st, i1], i2);
        comma_list_push(seq![st, i1, i2], i3);
        comma_list_push(seq![st, i1, i2, i3], i4);
        comma_list_push(seq![st, i1, i2, i3, i4], i5);
        assert(seq![st, i1] =~= seq![st].push(i1));
        assert(seq![st, i1, i2] =~= seq![st, i1].push(i2));
        assert(seq![st, i1, i2, i3] =~= seq![st, i1, i2].push(i3));
        assert(seq![st, i1, i2, i3, i4] =~= seq![st, i1, i2, i3].push(i4));
        assert(seq![st, i1, i2, i3, i4, i5] =~= seq![st, i1, i2, i3, i4].push(i5));
        assert(comma_list(seq![st]) == st);
        assert(items =~= seq![st, i1, i2, i3, i4, i5]);
        assert(update_statement_spec(u) =~= "UPDATE jobs SET "@ + (st + ", "@ + i1 + ", "@ + i2 + ", "@ + i3
            + ", "@ + i4 + ", "@ + i5) + " WHERE id = ?1"@);
}

/// The statement recording an outcome updates the job `?1` and sets exactly
/// the columns of `outcome_assignments`, in that order.
pub proof fn outcome_statement_sets_its_columns(u: JobUpdate)
    ensures
        update_statement_spec(u) == "UPDATE jobs SET "@ + comma_list(outcome_assignments(u)) + " WHERE id = ?1"@,
{
    match u {
        JobUpdate::Complete { .. } => lemma_complete_statement(u),
        JobUpdate::DeadLetter { .. } => lemma_dead_letter_statement(u),
        JobUpdate::Retry { .. } => lemma_retry_statement(u),
    }
}

/// Of the columns an outcome sets, `result` takes the outcome's text (`?2`)
/// exactly for a completion and `last_error` exactly for a dead letter or a
/// retry: an error is never stored as a result, nor a result as an error.
pub proof fn outcome_text_column_is_exact(u: JobUpdate)
    ensures
        outcome_assignments(u).contains(set_item("result"@, "?2"@)) <==> u is Complete,
        outcome_assignments(u).contains(set_item("last_error"@, "?2"@)) <==> !(u is Complete),
{
    reveal_strlit("status");
    reveal_strlit("completed_at");
    reveal_strlit("result");
    reveal_strlit("last_error");
    reveal_strlit("updated_at");
    reveal_strlit("visible_at");
    reveal_strlit("worker_id");
    reveal_strlit("started_at");
    let items = outcome_assignments(u);
    let r = set_item("result"@, "?2"@);
    let l = set_item("last_error"@, "?2"@);
    assert(r[0] == 'r' && l[0] == 'l');
    assert forall|k: int| 0 <= k < items.len() && k != 2 implies #[trigger] items[k][0] != 'r' && items[k][0] != 'l' by {
        assert(items[k][0] == (match u {
            JobUpdate::Retry { .. } => seq!["status"@, "visible_at"@, "last_error"@, "worker_id"@, "started_at"@, "updated_at"@][k][0],
            _ => seq!["status"@, "completed_at"@, "result"@, "updated_at"@][k][0],
        }));
    }
    if u is Complete {
        assert(items[2] == r);
        assert(items[2][0] != 'l');
    } else {
        assert(items[2] == l);
        assert(items[2][0] != 'r');
    }
}

/// A queue that may be polled, with its rate limit in micro-requests per
/// second (none, or not positive: unlimited), its concurrency limit and the
/// number of its jobs running now.
#[derive(Debug, Clone, PartialEq)]
pub struct QueueInfo {
    pub name: String,
    pub rate_limit_micro_rps: Option<u64>,
    pub max_concurrency: i32,
    pub running: i64,
}

/// A queue whose running jobs have reached its concurrency limit.
pub open spec fn at_capacity(q: QueueInfo) -> bool {
    q.running >= q.max_concurrency
}

/// The queues of `qs` that may take another job: those below their
/// concurrency limit that pass the rate limiter, checked in order with the
/// `i`-th check at time `times[i]`, and the buckets afterwards. A queue at
/// its limit is passed over without asking the rate limiter.
pub open spec fn filter_allowed(
    before: Map<Seq<char>, BucketView>,
    qs: Seq<QueueInfo>,
    times: Seq<int>,
) -> (Seq<Seq<char>>, Map<Seq<char>, BucketView>)
    decreases qs.len(),
{
    if qs.len() == 0 {
        (Seq::empty(), before)
    } else {
        let (names, mid) = filter_allowed(before, qs.drop_last(), times.drop_last());
        let q = qs.last();
        if at_capacity(q) {
            (names, mid)
        } else {
            let (ok, after) = check_apply(mid, q.name@, q.rate_limit_micro_rps, times.last());
            (if ok { names.push(q.name@) } else { names }, after)
        }
    }
}

/// The queues that may take another job, in their given order: those below
/// their concurrency limit that pass the rate limiter; each rate check reads
/// the clock.
pub fn allowed_queues(limiter: &mut RateLimiter, queues: Vec<QueueInfo>) -> (r: Vec<String>)
    ensures
        exists|times: Seq<int>| #![trigger filter_allowed(old(limiter)@, queues@, times)]
            times.len() == queues@.len()
            && filter_allowed(old(limiter)@, queues@, times) == (r@.map_values(|s: String| s@), final(limiter)@),
{
    let ghost start = limiter@;
    let ghost mut times: Seq<int> = Seq::empty();
    let mut allowed: Vec<String> = Vec::new();
    let mut i: usize = 0;
    while i < queues.len()
        invariant
            i <= queues@.len(),
            times.len() == i,
            filter_allowed(start, queues@.take(i as int), times) == (allowed@.map_values(|s: String| s@), limiter@),
        decreases queues@.len() - i,
    {
        let q = &queues[i];
        let ghost mid = limiter@;
        let ok = if q.running >= q.max_concurrency as i64 {
            false
        } else {
            limiter.check_queue(q.name.as_str(), q.rate_limit_micro_rps)
        };
        let ghost t = if at_capacity(*q) {
            0int
        } else {
            choose|t: int| #[trigger] check_outcome(mid, q.name@, q.rate_limit_micro_rps, t, ok, limiter@)
        };
        let ghost prev_allowed = allowed@.map_values(|s: String| s@);
        if ok {
            allowed.push(q.name.clone());
        }
        proof {
            let qs1 = queues@.take(i + 1);
            assert(qs1.drop_last() =~= queues@.take(i as int));
            assert(qs1.last() == queues@[i as int]);
            let times1 = times.push(t);
            assert(times1.drop_last() =~= times);
            if ok {
                assert(allowed@.map_values(|s: String| s@) =~= prev_allowed.push(q.name@));
            } else {
                assert(allowed@.map_values(|s: String| s@) =~= prev_allowed);
            }
            times = times1;
        }
        i = i + 1;
    }
    assert(queues@.take(queues@.len() as int) =~= queues@);
    allowed
}

/// A queue at its concurrency limit is never offered for claiming: every
/// name the filter lets through is that of a queue below its limit.
pub proof fn queues_at_capacity_are_never_offered(
    before: Map<Seq<char>, BucketView>,
    qs: Seq<QueueInfo>,
    times: Seq<int>,
    n: Seq<char>,
)
    requires
        filter_allowed(before, qs, times).0.contains(n),
    ensures
        exists|k: int| 0 <= k < qs.len() && qs[k].name@ == n && !at_capacity(#[trigger] qs[k]),
    decreases qs.len(),
{
    if qs.len() > 0 {
        let (names, mid) = filter_allowed(before, qs.drop_last(), times.drop_last());
        let q = qs.last();
        if names.contains(n) {
            queues_at_capacity_are_never_offered(before, qs.drop_last(), times.drop_last(), n);
            let k = choose|k: int| 0 <= k < qs.drop_last().len() && qs.drop_last()[k].name@ == n
                && !at_capacity(#[trigger] qs.drop_last()[k]);
            assert(qs[k] == qs.drop_last()[k]);
        } else {
            let last = qs.len() - 1;
            assert(qs[last] == q);
            assert(!at_capacity(q) && q.name@ == n);
        }
    }
}

/// `SliceRandom::shuffle` with rand's thread-local generator: puts the names
/// in a random order. Which order is chance; the source only swaps entries,
/// so the same names come out.
#[verifier::external_body]
fn shuffle_names(v: &mut Vec<String>)
    ensures
        final(v)@.to_multiset() == old(v)@.to_multiset(),
{
    v.shuffle(&mut rand::thread_rng());
}

/// The order in which to try queues for a job: those that pass the rate
/// limiter, in random order so that no queue starves.
pub fn claim_order(limiter: &mut RateLimiter, queues: Vec<QueueInfo>) -> (r: Vec<String>)
    ensures
        exists|times: Seq<int>, names: Seq<String>| #![trigger filter_allowed(old(limiter)@, queues@, times), names.to_multiset()]
            times.len() == queues@.len()
            && filter_allowed(old(limiter)@, queues@, times) == (names.map_values(|s: String| s@), final(limiter)@)
            && r@.to_multiset() == names.to_multiset(),
{
    let mut allowed = allowed_queues(limiter, queues);
    let ghost before = allowed@;
    shuffle_names(&mut allowed);
    assert(allowed@.to_multiset() == before.to_multiset());
    allowed
}

/// Placeholders `?1,?2,...,?n`.
pub open spec fn placeholders(n: nat) -> Seq<char>
    decreases n,
{
    if n == 0 {
        Seq::empty()
    } else if n == 1 {
        "?1"@
    } else {
        placeholders((n - 1) as nat) + ",?"@ + nat_digits(n)
    }
}

/// The columns read for each queue to poll: its name, rate limit,
/// concurrency limit and the number of its jobs running now.
pub open spec fn poll_queues_select() -> Seq<char> {
    "SELECT q.name, q.rate_limit_rps, q.max_concurrency, (SELECT COUNT(*) FROM jobs j WHERE j.queue_name = q.name AND j.status = 'running') AS running FROM queues q WHERE q.paused = 0"@
}

/// The query for the queues to poll: every unpaused queue, or, when the
/// worker is configured with a queue list, the unpaused queues of that list
/// (bound to `?1`.. in order).
pub open spec fn poll_queues_sql(n_configured: nat) -> Seq<char> {
    if n_configured == 0 {
        poll_queues_select()
    } else {
        poll_queues_select() + " AND q.name IN ("@ + placeholders(n_configured) + ")"@
    }
}

/// Builds the query for the queues to poll, for a configured list of
/// `configured` queue names (empty: all queues).
pub fn poll_queues_query(configured: &Vec<String>) -> (r: String)
    ensures
        r@ == poll_queues_sql(configured@.len()),
{
    let n = configured.len();
    let select = "SELECT q.name, q.rate_limit_rps, q.max_concurrency, (SELECT COUNT(*) FROM jobs j WHERE j.queue_name = q.name AND j.status = 'running') AS running FROM queues q WHERE q.paused = 0";
    if n == 0 {
        return String::from_str(select);
    }
    let mut s = String::from_str(select);
    s.append(" AND q.name IN (");
    let mut ph = String::from_str("?1");
    proof {
        reveal_strlit("?1");
    }
    let mut k: usize = 1;
    while k < n
        invariant
            1 <= k <= n,
            n == configured@.len(),
            ph@ == placeholders(k as nat),
        decreases n - k,
    {
        k = k + 1;
        let d = u64_decimal(k as u64);
        ph.append(",?");
        ph.append(d.as_str());
    }
    s.append(ph.as_str());
    s.append(")");
    s
}

} // verus!
