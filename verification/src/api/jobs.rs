//! The jobs API: validation of new jobs, the SQL that stores and lists them,
//! and the answers for cancel, retry and lookup.

use vstd::prelude::*;
use vstd::string::*;
use crate::api::error::{ApiError, is_bad_request, is_conflict, is_not_found};
use crate::config::DefaultsConfig;
use crate::ids::new_id;
use crate::models::job::{CreateJobRequest, ListJobsQuery};
use crate::sqltime::{now_expr, now_plus_expr, now_plus_sql, now_sql};
use crate::text::{concat3, has_prefix, i64_decimal, int_decimal, nat_digits, starts_with, u64_decimal};
use crate::sqlbuild::{comma_list, comma_list_push, insert_statement, placeholders};

verus! {

/// A usable callback URL: not empty, and HTTP or HTTPS.
pub open spec fn valid_callback_url(url: Seq<char>) -> bool {
    url.len() > 0 && (has_prefix(url, "http://"@) || has_prefix(url, "https://"@))
}

/// Checks a callback URL: an empty one is "required", one that is not
/// HTTP(S) is refused; both are bad requests.
pub fn validate_callback_url(url: &str) -> (r: Result<(), ApiError>)
    ensures
        url@.len() == 0 ==> (r matches Err(e) && is_bad_request(e, "callback_url is required"@)),
        url@.len() > 0 && !valid_callback_url(url@) ==> (
            r matches Err(e) && is_bad_request(e, "callback_url must be an HTTP(S) URL"@)),
        valid_callback_url(url@) ==> r is Ok,
{
    if url.unicode_len() == 0 {
        return Err(ApiError::BadRequest(String::from_str("callback_url is required")));
    }
    if !starts_with(url, "http://") && !starts_with(url, "https://") {
        return Err(ApiError::BadRequest(String::from_str("callback_url must be an HTTP(S) URL")));
    }
    Ok(())
}

/// The text of an optional string, or `default` when absent.
pub open spec fn text_or(o: Option<String>, default: Seq<char>) -> Seq<char> {
    match o {
        Some(s) => s@,
        None => default,
    }
}

/// An optional value, or `default` when absent.
pub open spec fn value_or<T>(o: Option<T>, default: T) -> T {
    match o {
        Some(v) => v,
        None => default,
    }
}

/// A job ready to be inserted: every default resolved, the time it becomes
/// visible as an SQL expression, and the INSERT statement that stores it
/// (its placeholders `?1`..`?11` take the fields in declaration order, from
/// `id` to `timeout_ms`).
#[derive(Debug, Clone, PartialEq)]
pub struct NewJob {
    pub id: String,
    pub queue_name: String,
    pub priority: i32,
    pub payload: String,
    pub callback_url: String,
    pub max_retries: i32,
    pub retry_backoff: Option<String>,
    pub base_delay_ms: Option<i32>,
    pub max_delay_ms: Option<i32>,
    pub idempotency_key: Option<String>,
    pub timeout_ms: i32,
    pub visible_at: String,
    pub insert_sql: String,
}

/// The INSERT statement for a job becoming visible at `visible_at`.
pub open spec fn insert_job_sql(visible_at: Seq<char>) -> Seq<char> {
    "INSERT INTO jobs (id, queue_name, priority, payload, callback_url, max_retries, retry_backoff, base_delay_ms, max_delay_ms, idempotency_key, timeout_ms, visible_at) VALUES (?1, ?2, ?3, ?4, ?5, ?6, ?7, ?8, ?9, ?10, ?11, "@
        + visible_at + ") RETURNING *"@
}

/// The stored fields of a job in the order `NewJob` declares them, each
/// named as its column.
pub open spec fn new_job_columns() -> Seq<Seq<char>> {
    seq![
        "id"@, "queue_name"@, "priority"@, "payload"@, "callback_url"@, "max_retries"@, "retry_backoff"@,
        "base_delay_ms"@, "max_delay_ms"@, "idempotency_key"@, "timeout_ms"@,
    ]
}

proof fn lemma_job_column_list()
    ensures
        comma_list(new_job_columns().push("visible_at"@)) == "id, queue_name, priority, payload, callback_url, max_retries, retry_backoff, base_delay_ms, max_delay_ms, idempotency_key, timeout_ms, visible_at"@,
{
    reveal_strlit("id");
    reveal_strlit("queue_name");
    reveal_strlit("priority");
    reveal_strlit("payload");
    reveal_strlit("callback_url");
    reveal_strlit("max_retries");
    reveal_strlit("retry_backoff");
    reveal_strlit("base_delay_ms");
    reveal_strlit("max_delay_ms");
    reveal_strlit("idempotency_key");
    reveal_strlit("timeout_ms");
    reveal_strlit("visible_at");
    reveal_strlit(", ");
    reveal_strlit("id, queue_name, priority, payload, callback_url, max_retries, retry_backoff, base_delay_ms, max_delay_ms, idempotency_key, timeout_ms, visible_at");
    let mut c: Seq<Seq<char>> = seq!["id"@];
    let mut ct: Seq<char> = "id"@;
    comma_list_push(c, "queue_name"@);
    c = c.push("queue_name"@);
    ct = ct + ", "@ + "queue_name"@;
    comma_list_push(c, "priority"@);
    c = c.push("priority"@);
    ct = ct + ", "@ + "priority"@;
    comma_list_push(c, "payload"@);
    c = c.push("payload"@);
    ct = ct + ", "@ + "payload"@;
    comma_list_push(c, "callback_url"@);
    c = c.push("callback_url"@);
    ct = ct + ", "@ + "callback_url"@;
    comma_list_push(c, "max_retries"@);
    c = c.push("max_retries"@);
    ct = ct + ", "@ + "max_retries"@;
    comma_list_push(c, "retry_backoff"@);
    c = c.push("retry_backoff"@);
    ct = ct + ", "@ + "retry_backoff"@;
    comma_list_push(c, "base_delay_ms"@);
    c = c.push("base_delay_ms"@);
    ct = ct + ", "@ + "base_delay_ms"@;
    comma_list_push(c, "max_delay_ms"@);
    c = c.push("max_delay_ms"@);
    ct = ct + ", "@ + "max_delay_ms"@;
    comma_list_push(c, "idempotency_key"@);
    c = c.push("idempotency_key"@);
    ct = ct + ", "@ + "idempotency_key"@;
    comma_list_push(c, "timeout_ms"@);
    c = c.push("timeout_ms"@);
    ct = ct + ", "@ + "timeout_ms"@;
    comma_list_push(c, "visible_at"@);
    c = c.push("visible_at"@);
    ct = ct + ", "@ + "visible_at"@;
    assert(c =~= new_job_columns().push("visible_at"@));
    assert(ct =~= "id, queue_name, priority, payload, callback_url, max_retries, retry_backoff, base_delay_ms, max_delay_ms, idempotency_key, timeout_ms, visible_at"@);
}

proof fn lemma_numbered_values(last: Seq<char>)
    ensures
        comma_list(placeholders(11).push(last)) == "?1, ?2, ?3, ?4, ?5, ?6, ?7, ?8, ?9, ?10, ?11, "@ + last,
{
    reveal_strlit(", ");
    reveal_strlit("?1, ?2, ?3, ?4, ?5, ?6, ?7, ?8, ?9, ?10, ?11, ");
    reveal_with_fuel(nat_digits, 2);
    assert(nat_digits(1) =~= seq!['1']);
    assert(nat_digits(2) =~= seq!['2']);
    assert(nat_digits(3) =~= seq!['3']);
    assert(nat_digits(4) =~= seq!['4']);
    assert(nat_digits(5) =~= seq!['5']);
    assert(nat_digits(6) =~= seq!['6']);
    assert(nat_digits(7) =~= seq!['7']);
    assert(nat_digits(8) =~= seq!['8']);
    assert(nat_digits(9) =~= seq!['9']);
    assert(nat_digits(10) =~= seq!['1', '0']);
    assert(nat_digits(11) =~= seq!['1', '1']);
    let vals = placeholders(11).push(last);
    assert(vals[0] =~= seq!['?', '1']);
    assert(vals[1] =~= seq!['?', '2']);
    assert(vals[2] =~= seq!['?', '3']);
    assert(vals[3] =~= seq!['?', '4']);
    assert(vals[4] =~= seq!['?', '5']);
    assert(vals[5] =~= seq!['?', '6']);
    assert(vals[6] =~= seq!['?', '7']);
    assert(vals[7] =~= seq!['?', '8']);
    assert(vals[8] =~= seq!['?', '9']);
    assert(vals[9] =~= seq!['?', '1', '0']);
    assert(vals[10] =~= seq!['?', '1', '1']);
    let mut v: Seq<Seq<char>> = seq![seq!['?', '1']];
    let mut vt: Seq<char> = seq!['?', '1'];
    comma_list_push(v, seq!['?', '2']);
    v = v.push(seq!['?', '2']);
    vt = vt + ", "@ + seq!['?', '2'];
    comma_list_push(v, seq!['?', '3']);
    v = v.push(seq!['?', '3']);
    vt = vt + ", "@ + seq!['?', '3'];
    comma_list_push(v, seq!['?', '4']);
    v = v.push(seq!['?', '4']);
    vt = vt + ", "@ + seq!['?', '4'];
    comma_list_push(v, seq!['?', '5']);
    v = v.push(seq!['?', '5']);
    vt = vt + ", "@ + seq!['?', '5'];
    comma_list_push(v, seq!['?', '6']);
    v = v.push(seq!['?', '6']);
    vt = vt + ", "@ + seq!['?', '6'];
    comma_list_push(v, seq!['?', '7']);
    v = v.push(seq!['?', '7']);
    vt = vt + ", "@ + seq!['?', '7'];
    comma_list_push(v, seq!['?', '8']);
    v = v.push(seq!['?', '8']);
    vt = vt + ", "@ + seq!['?', '8'];
    comma_list_push(v, seq!['?', '9']);
    v = v.push(seq!['?', '9']);
    vt = vt + ", "@ + seq!['?', '9'];
    comma_list_push(v, seq!['?', '1', '0']);
    v = v.push(seq!['?', '1', '0']);
    vt = vt + ", "@ + seq!['?', '1', '0'];
    comma_list_push(v, seq!['?', '1', '1']);
    v = v.push(seq!['?', '1', '1']);
    vt = vt + ", "@ + seq!['?', '1', '1'];
    comma_list_push(v, last);
    v = v.push(last);
    assert(v =~= vals);
    assert(vt + ", "@ =~= "?1, ?2, ?3, ?4, ?5, ?6, ?7, ?8, ?9, ?10, ?11, "@);
}

/// A job's INSERT names the stored fields of `NewJob` in declaration order,
/// the k-th bound to placeholder `?k`, and last the column `visible_at`,
/// which takes the computed time.
pub proof fn job_insert_binds_fields_in_order(visible_at: Seq<char>)
    ensures
        insert_job_sql(visible_at) == insert_statement(
            "jobs"@,
            new_job_columns().push("visible_at"@),
            placeholders(11).push(visible_at),
        ),
{
    lemma_job_column_list();
    lemma_numbered_values(visible_at);
    reveal_strlit("INSERT INTO ");
    reveal_strlit("jobs");
    reveal_strlit(" (");
    reveal_strlit(") VALUES (");
    reveal_strlit(") RETURNING *");
    reveal_strlit("id, queue_name, priority, payload, callback_url, max_retries, retry_backoff, base_delay_ms, max_delay_ms, idempotency_key, timeout_ms, visible_at");
    reveal_strlit("?1, ?2, ?3, ?4, ?5, ?6, ?7, ?8, ?9, ?10, ?11, ");
    reveal_strlit("INSERT INTO jobs (id, queue_name, priority, payload, callback_url, max_retries, retry_backoff, base_delay_ms, max_delay_ms, idempotency_key, timeout_ms, visible_at) VALUES (?1, ?2, ?3, ?4, ?5, ?6, ?7, ?8, ?9, ?10, ?11, ");
    assert("INSERT INTO jobs (id, queue_name, priority, payload, callback_url, max_retries, retry_backoff, base_delay_ms, max_delay_ms, idempotency_key, timeout_ms, visible_at) VALUES (?1, ?2, ?3, ?4, ?5, ?6, ?7, ?8, ?9, ?10, ?11, "@ =~= "INSERT INTO "@ + "jobs"@ + " ("@ + "id, queue_name, priority, payload, callback_url, max_retries, retry_backoff, base_delay_ms, max_delay_ms, idempotency_key, timeout_ms, visible_at"@ + ") VALUES ("@ + "?1, ?2, ?3, ?4, ?5, ?6, ?7, ?8, ?9, ?10, ?11, "@);
    assert(insert_job_sql(visible_at) =~= insert_statement(
            "jobs"@,
            new_job_columns().push("visible_at"@),
            placeholders(11).push(visible_at),
        ));
}

/// When a job with delay `delay_ms` becomes visible: now, or now plus the
/// delay.
pub open spec fn visible_at_expr(delay_ms: Option<i64>) -> Seq<char> {
    match delay_ms {
        Some(d) => now_plus_expr(d as nat),
        None => now_expr(),
    }
}

/// The job `plan_create_job` stores for `req` under `defaults`, up to its id.
pub open spec fn planned_job(j: NewJob, req: CreateJobRequest, defaults: DefaultsConfig) -> bool {
    &&& j.id@.len() == 36
    &&& j.queue_name@ == text_or(req.queue_name, "default"@)
    &&& j.priority == value_or(req.priority, 0)
    &&& j.payload@ == text_or(req.payload, "{}"@)
    &&& j.callback_url == req.callback_url
    &&& j.max_retries == value_or(req.max_retries, defaults.max_retries)
    &&& j.retry_backoff == req.retry_backoff
    &&& j.base_delay_ms == req.base_delay_ms
    &&& j.max_delay_ms == req.max_delay_ms
    &&& j.idempotency_key == req.idempotency_key
    &&& j.timeout_ms == value_or(req.timeout_ms, defaults.timeout_ms)
    &&& j.visible_at@ == visible_at_expr(req.delay_ms)
    &&& j.insert_sql@ == insert_job_sql(j.visible_at@)
}

/// Resolves a new job from a request whose callback URL has been checked:
/// queue "default", priority 0 and payload "{}" unless given, retries and
/// timeout from the configured defaults unless given, visible now or after
/// `delay_ms`. A negative delay is a bad request.
pub fn plan_create_job(req: CreateJobRequest, defaults: &DefaultsConfig) -> (r: Result<NewJob, ApiError>)
    requires
        valid_callback_url(req.callback_url@),
    ensures
        match req.delay_ms {
            Some(d) if d < 0 => r matches Err(e) && is_bad_request(e, "delay_ms must be non-negative"@),
            _ => r matches Ok(j) && planned_job(j, req, *defaults),
        },
{
    let id = new_id();
    let queue_name = match req.queue_name {
        Some(q) => q,
        None => String::from_str("default"),
    };
    let priority = match req.priority {
        Some(p) => p,
        None => 0,
    };
    let payload = match req.payload {
        Some(p) => p,
        None => String::from_str("{}"),
    };
    let max_retries = match req.max_retries {
        Some(m) => m,
        None => defaults.max_retries,
    };
    let timeout_ms = match req.timeout_ms {
        Some(t) => t,
        None => defaults.timeout_ms,
    };
    let visible_at = match req.delay_ms {
        Some(d) => {
            if d < 0 {
                return Err(ApiError::BadRequest(String::from_str("delay_ms must be non-negative")));
            }
            now_plus_sql(d as u64)
        },
        None => now_sql(),
    };
    let insert_sql = concat3(
        "INSERT INTO jobs (id, queue_name, priority, payload, callback_url, max_retries, retry_backoff, base_delay_ms, max_delay_ms, idempotency_key, timeout_ms, visible_at) VALUES (?1, ?2, ?3, ?4, ?5, ?6, ?7, ?8, ?9, ?10, ?11, ",
        visible_at.as_str(),
        ") RETURNING *",
    );
    Ok(NewJob {
        id,
        queue_name,
        priority,
        payload,
        callback_url: req.callback_url,
        max_retries,
        retry_backoff: req.retry_backoff,
        base_delay_ms: req.base_delay_ms,
        max_delay_ms: req.max_delay_ms,
        idempotency_key: req.idempotency_key,
        timeout_ms,
        visible_at,
        insert_sql,
    })
}

/// The SELECT that lists jobs, the values for its placeholders in order,
/// and the page it asks for.
#[derive(Debug, Clone, PartialEq)]
pub struct ListJobsPlan {
    pub sql: String,
    pub binds: Vec<String>,
    pub limit: i64,
    pub offset: i64,
}

/// The page size: 50 unless given, and held within `[0, 1000]` (a negative
/// size asks for nothing, so that it cannot lift the cap).
pub open spec fn list_limit(q: ListJobsQuery) -> i64 {
    let l = value_or(q.limit, 50i64);
    if l < 0 { 0 } else if l < 1000 { l } else { 1000 }
}

/// The filter clauses of a job listing: the queue filter takes placeholder
/// `?1`; the status filter takes the next free one.
pub open spec fn list_filters(q: ListJobsQuery) -> Seq<char> {
    (if q.queue is Some { " AND queue_name = ?1"@ } else { Seq::<char>::empty() })
        + (if q.status is Some {
            " AND status = ?"@ + nat_digits(if q.queue is Some { 2 } else { 1 })
        } else {
            Seq::<char>::empty()
        })
}

/// The listing statement: filters, newest first, one page.
pub open spec fn list_sql(q: ListJobsQuery) -> Seq<char> {
    "SELECT * FROM jobs WHERE 1=1"@ + list_filters(q) + " ORDER BY created_at DESC"@ + " LIMIT "@
        + int_decimal(list_limit(q) as int) + " OFFSET "@ + int_decimal(value_or(q.offset, 0i64) as int)
}

/// The values for the listing's placeholders: the queue, then the status,
/// each when given.
pub open spec fn list_binds(q: ListJobsQuery) -> Seq<Seq<char>> {
    (if q.queue is Some { seq![q.queue->0@] } else { Seq::<Seq<char>>::empty() })
        + (if q.status is Some { seq![q.status->0@] } else { Seq::<Seq<char>>::empty() })
}

/// A listing never asks for more than 1000 jobs nor for a negative number
/// (which SQLite would read as "no limit"); it asks for 50 when no limit is
/// given, and for the given limit when that lies in `[0, 1000]`.
pub proof fn listing_page_is_capped(q: ListJobsQuery)
    ensures
        0 <= list_limit(q) <= 1000,
        q.limit is None ==> list_limit(q) == 50,
        q.limit is Some && 0 <= q.limit->0 <= 1000 ==> list_limit(q) == q.limit->0,
{
}

/// The filter clauses of a listing and their values.
fn list_filter_parts(params: &ListJobsQuery) -> (r: (String, Vec<String>))
    ensures
        r.0@ == list_filters(*params),
        r.1@.map_values(|b: String| b@) == list_binds(*params),
{
    let mut sql = String::new();
    let mut binds: Vec<String> = Vec::new();
    if let Some(queue) = &params.queue {
        binds.push(queue.clone());
        sql.append(" AND queue_name = ?1");
    }
    let ghost sql1 = sql@;
    let ghost binds1 = binds@;
    assert(sql1 =~= (if params.queue is Some { " AND queue_name = ?1"@ } else { Seq::<char>::empty() }));
    assert(binds1.len() == (if params.queue is Some { 1int } else { 0int }));
    if let Some(status) = &params.status {
        binds.push(status.clone());
        let n = u64_decimal(binds.len() as u64);
        sql.append(" AND status = ?");
        sql.append(n.as_str());
    }
    assert(sql@ =~= list_filters(*params));
    assert(binds@.map_values(|b: String| b@) =~= list_binds(*params));
    (sql, binds)
}

/// Plans a job listing: optional queue and status filters, newest first,
/// `limit` (50 unless given, held within 0 to 1000) jobs from `offset` (0
/// unless given).
pub fn plan_list_jobs(params: &ListJobsQuery) -> (r: ListJobsPlan)
    ensures
        r.limit == list_limit(*params),
        r.offset == value_or(params.offset, 0i64),
        r.sql@ == list_sql(*params),
        r.binds@.map_values(|b: String| b@) == list_binds(*params),
{
    let l = match params.limit {
        Some(l) => l,
        None => 50,
    };
    let limit = if l < 0 { 0 } else if l < 1000 { l } else { 1000 };
    let offset = match params.offset {
        Some(o) => o,
        None => 0,
    };
    let (filters, binds) = list_filter_parts(params);
    let mut sql = String::from_str("SELECT * FROM jobs WHERE 1=1");
    sql.append(filters.as_str());
    sql.append(" ORDER BY created_at DESC");
    sql.append(" LIMIT ");
    let ls = i64_decimal(limit);
    sql.append(ls.as_str());
    sql.append(" OFFSET ");
    let os = i64_decimal(offset);
    sql.append(os.as_str());
    assert(sql@ =~= list_sql(*params));
    ListJobsPlan { sql, binds, limit, offset }
}

/// "Job {id} not found".
pub fn job_not_found(id: &str) -> (e: ApiError)
    ensures
        is_not_found(e, "Job "@ + id@ + " not found"@),
{
    ApiError::NotFound(concat3("Job ", id, " not found"))
}

/// The answer to cancelling job `id`: the DELETE of a pending job removed
/// `rows_deleted` rows; when it removed none, `existing_status` is the
/// job's status if the job exists. Cancelling succeeds only for a pending
/// job; a missing job is not found, any other status is a conflict.
pub fn cancel_outcome(id: &str, rows_deleted: u64, existing_status: Option<String>) -> (r: Result<(), ApiError>)
    ensures
        rows_deleted > 0 ==> r is Ok,
        rows_deleted == 0 ==> match existing_status {
            None => r matches Err(e) && is_not_found(e, "Job "@ + id@ + " not found"@),
            Some(s) => r matches Err(e) && is_conflict(e, "Cannot cancel job with status '"@ + s@ + "'"@),
        },
{
    if rows_deleted > 0 {
        return Ok(());
    }
    match existing_status {
        None => Err(job_not_found(id)),
        Some(s) => Err(ApiError::Conflict(concat3("Cannot cancel job with status '", s.as_str(), "'"))),
    }
}

/// The answer when no dead job `id` could be retried.
pub fn retry_not_found(id: &str) -> (e: ApiError)
    ensures
        is_not_found(e, "Job "@ + id@ + " not found or not in 'dead' status"@),
{
    ApiError::NotFound(concat3("Job ", id, " not found or not in 'dead' status"))
}

} // verus!
