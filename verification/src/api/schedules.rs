//! The schedules API: next-run computation from cron expressions, creation
//! defaults and the UPDATE statement for partial changes.

use vstd::prelude::*;
use vstd::string::*;
use crate::cron_support::{
    CronInstant, cron_accepts, cron_error_message, cron_fires_at, format_timestamp, instant_in_range,
    is_timestamp, next_fire_time, timestamp_text,
};
use crate::api::error::{ApiError, is_bad_request, is_not_found};
use crate::api::jobs::{text_or, valid_callback_url, validate_callback_url, value_or};
use crate::api::queues::{
    BindValue, UpdatePlan, add_change, applies_change, build_update_sql, int_bind, int_change, lemma_change_after,
    lemma_change_alone, lemma_change_then, lemma_concat_lacks, lemma_opt_col_lacks, opt_bind, opt_col, text_bind, text_change, update_sql,
};
use crate::ids::new_id;
use crate::models::schedule::{CreateScheduleRequest, UpdateScheduleRequest};
use crate::sqlbuild::{comma_list, comma_list_push, insert_statement, placeholders};
use crate::text::{concat2, concat3, nat_digits};

verus! {

/// A next run time for `expr`: a timestamp written for an instant at which
/// its schedule fires.
pub open spec fn is_next_run_of(expr: Seq<char>, t: Seq<char>) -> bool {
    &&& is_timestamp(t)
    &&& exists|i: CronInstant|
        #![trigger cron_fires_at(expr, i)]
        instant_in_range(i) && cron_fires_at(expr, i) && t == timestamp_text(i)
}

/// Turns what the cron crate answered for an expression into the next run
/// time: an instant is written as a timestamp; no instant means the
/// schedule never fires again, a bad request; a parse error is a bad
/// request "Invalid cron expression: " followed by its description.
pub fn next_run_from_outcome(outcome: Result<Option<CronInstant>, String>) -> (r: Result<String, ApiError>)
    requires
        outcome matches Ok(Some(i)) ==> instant_in_range(i),
    ensures
        match outcome {
            Ok(Some(i)) => r matches Ok(t) && t@ == timestamp_text(i),
            Ok(None) => r matches Err(e) && is_bad_request(e, "Cron expression has no upcoming runs"@),
            Err(d) => r matches Err(e) && is_bad_request(e, "Invalid cron expression: "@ + d@),
        },
{
    match outcome {
        Ok(Some(i)) => Ok(format_timestamp(i)),
        Ok(None) => Err(ApiError::BadRequest(String::from_str("Cron expression has no upcoming runs"))),
        Err(detail) => Err(ApiError::BadRequest(concat2("Invalid cron expression: ", detail.as_str()))),
    }
}

/// Computes when a cron expression next fires: the next instant its
/// schedule includes, written `YYYY-MM-DDTHH:MM:SS.mmm` in UTC
/// (`next_run_from_outcome` on the cron crate's answer). An expression the
/// cron crate rejects is a bad request "Invalid cron expression: " followed
/// by cron's description; one that never fires again is a bad request too.
pub fn compute_next_run(cron_expr: &str) -> (r: Result<String, ApiError>)
    ensures
        !cron_accepts(cron_expr@) ==> (r matches Err(e)
            && is_bad_request(e, "Invalid cron expression: "@ + cron_error_message(cron_expr@))),
        cron_accepts(cron_expr@) ==> ((r matches Ok(t) && is_next_run_of(cron_expr@, t@)) || (r matches Err(e)
            && is_bad_request(e, "Cron expression has no upcoming runs"@))),
{
    let outcome = next_fire_time(cron_expr);
    proof {
        if let Ok(Some(i)) = outcome {
            assert(cron_fires_at(cron_expr@, i));
            crate::cron_support::instants_are_written_as_timestamps(i);
        }
    }
    next_run_from_outcome(outcome)
}

/// A schedule ready to be inserted; `insert_sql` binds the fields in
/// declaration order to `?1`..`?9`.
#[derive(Debug, Clone, PartialEq)]
pub struct NewSchedule {
    pub id: String,
    pub queue_name: String,
    pub cron_expression: String,
    pub callback_url: String,
    pub payload: String,
    pub max_retries: i32,
    pub timeout_ms: i32,
    pub enabled: i32,
    pub next_run_at: String,
    pub insert_sql: String,
}

pub open spec fn insert_schedule_sql() -> Seq<char> {
    "INSERT INTO schedules (id, queue_name, cron_expression, callback_url, payload, max_retries, timeout_ms, enabled, next_run_at) VALUES (?1, ?2, ?3, ?4, ?5, ?6, ?7, ?8, ?9) RETURNING *"@
}

/// The stored fields of a schedule in the order `NewSchedule` declares them, each
/// named as its column.
pub open spec fn new_schedule_columns() -> Seq<Seq<char>> {
    seq!["id"@, "queue_name"@, "cron_expression"@, "callback_url"@, "payload"@, "max_retries"@, "timeout_ms"@, "enabled"@, "next_run_at"@]
}

proof fn lemma_new_schedule_column_list()
    ensures
        comma_list(new_schedule_columns()) == "id, queue_name, cron_expression, callback_url, payload, max_retries, timeout_ms, enabled, next_run_at"@,
{
    reveal_strlit("id");
    reveal_strlit("queue_name");
    reveal_strlit("cron_expression");
    reveal_strlit("callback_url");
    reveal_strlit("payload");
    reveal_strlit("max_retries");
    reveal_strlit("timeout_ms");
    reveal_strlit("enabled");
    reveal_strlit("next_run_at");
    reveal_strlit(", ");
    reveal_strlit("id, queue_name, cron_expression, callback_url, payload, max_retries, timeout_ms, enabled, next_run_at");
    let mut c: Seq<Seq<char>> = seq!["id"@];
    let mut ct: Seq<char> = "id"@;
    comma_list_push(c, "queue_name"@);
    c = c.push("queue_name"@);
    ct = ct + ", "@ + "queue_name"@;
    comma_list_push(c, "cron_expression"@);
    c = c.push("cron_expression"@);
    ct = ct + ", "@ + "cron_expression"@;
    comma_list_push(c, "callback_url"@);
    c = c.push("callback_url"@);
    ct = ct + ", "@ + "callback_url"@;
    comma_list_push(c, "payload"@);
    c = c.push("payload"@);
    ct = ct + ", "@ + "payload"@;
    comma_list_push(c, "max_retries"@);
    c = c.push("max_retries"@);
    ct = ct + ", "@ + "max_retries"@;
    comma_list_push(c, "timeout_ms"@);
    c = c.push("timeout_ms"@);
    ct = ct + ", "@ + "timeout_ms"@;
    comma_list_push(c, "enabled"@);
    c = c.push("enabled"@);
    ct = ct + ", "@ + "enabled"@;
    comma_list_push(c, "next_run_at"@);
    c = c.push("next_run_at"@);
    ct = ct + ", "@ + "next_run_at"@;
    assert(c =~= new_schedule_columns());
    assert(ct =~= "id, queue_name, cron_expression, callback_url, payload, max_retries, timeout_ms, enabled, next_run_at"@);
}

proof fn lemma_new_schedule_placeholders()
    ensures
        comma_list(placeholders(9)) == "?1, ?2, ?3, ?4, ?5, ?6, ?7, ?8, ?9"@,
{
    reveal_strlit(", ");
    reveal_strlit("?1, ?2, ?3, ?4, ?5, ?6, ?7, ?8, ?9");
    assert(nat_digits(1) =~= seq!['1']);
    assert(nat_digits(2) =~= seq!['2']);
    assert(nat_digits(3) =~= seq!['3']);
    assert(nat_digits(4) =~= seq!['4']);
    assert(nat_digits(5) =~= seq!['5']);
    assert(nat_digits(6) =~= seq!['6']);
    assert(nat_digits(7) =~= seq!['7']);
    assert(nat_digits(8) =~= seq!['8']);
    assert(nat_digits(9) =~= seq!['9']);
    let vals = placeholders(9);
    assert(vals[0] =~= seq!['?', '1']);
    assert(vals[1] =~= seq!['?', '2']);
    assert(vals[2] =~= seq!['?', '3']);
    assert(vals[3] =~= seq!['?', '4']);
    assert(vals[4] =~= seq!['?', '5']);
    assert(vals[5] =~= seq!['?', '6']);
    assert(vals[6] =~= seq!['?', '7']);
    assert(vals[7] =~= seq!['?', '8']);
    assert(vals[8] =~= seq!['?', '9']);
    let mut v: Seq<Seq<char>> = seq![seq!['?', '1']];
    let mut vt: Seq<char> = seq!['?', '1'];
    comma_list_push(v, seq!['?', '2']);
    v = v.push(seq!['?', '2']);
    vt = vt + ", "@ + seq!['?', '2'];
    comma_list_push(v, seq!['?', '3']);
    v = v.push(seq!['?', '3']);
    vt = vt + ", "@ + seq!['?', '3'];
    comma_list_push(v, seq!['?', '4']);
    v = v.push(seq!['?', '4']);
    vt = vt + ", "@ + seq!['?', '4'];
    comma_list_push(v, seq!['?', '5']);
    v = v.push(seq!['?', '5']);
    vt = vt + ", "@ + seq!['?', '5'];
    comma_list_push(v, seq!['?', '6']);
    v = v.push(seq!['?', '6']);
    vt = vt + ", "@ + seq!['?', '6'];
    comma_list_push(v, seq!['?', '7']);
    v = v.push(seq!['?', '7']);
    vt = vt + ", "@ + seq!['?', '7'];
    comma_list_push(v, seq!['?', '8']);
    v = v.push(seq!['?', '8']);
    vt = vt + ", "@ + seq!['?', '8'];
    comma_list_push(v, seq!['?', '9']);
    v = v.push(seq!['?', '9']);
    vt = vt + ", "@ + seq!['?', '9'];
    assert(v =~= vals);
    assert(vt =~= "?1, ?2, ?3, ?4, ?5, ?6, ?7, ?8, ?9"@);
}

/// A schedule's INSERT names the fields of `NewSchedule` in declaration
/// order, the k-th bound to placeholder `?k`.
pub proof fn schedule_insert_binds_fields_in_order()
    ensures
        insert_schedule_sql() == insert_statement("schedules"@, new_schedule_columns(), placeholders(9)),
{
    lemma_new_schedule_column_list();
    lemma_new_schedule_placeholders();
    reveal_strlit("INSERT INTO ");
    reveal_strlit("schedules");
    reveal_strlit(" (");
    reveal_strlit(") VALUES (");
    reveal_strlit(") RETURNING *");
    reveal_strlit("id, queue_name, cron_expression, callback_url, payload, max_retries, timeout_ms, enabled, next_run_at");
    reveal_strlit("?1, ?2, ?3, ?4, ?5, ?6, ?7, ?8, ?9");
    reveal_strlit("INSERT INTO schedules (id, queue_name, cron_expression, callback_url, payload, max_retries, timeout_ms, enabled, next_run_at) VALUES (?1, ?2, ?3, ?4, ?5, ?6, ?7, ?8, ?9) RETURNING *");
    assert(insert_schedule_sql() =~= insert_statement("schedules"@, new_schedule_columns(), placeholders(9)));
}

/// The schedule stored for `req` with next run time `next_run`, up to its id.
pub open spec fn planned_schedule(s: NewSchedule, req: CreateScheduleRequest, next_run: String) -> bool {
    &&& s.id@.len() == 36
    &&& s.queue_name@ == text_or(req.queue_name, "default"@)
    &&& s.cron_expression == req.cron_expression
    &&& s.callback_url == req.callback_url
    &&& s.payload@ == text_or(req.payload, "{}"@)
    &&& s.max_retries == value_or(req.max_retries, 3)
    &&& s.timeout_ms == value_or(req.timeout_ms, 30000)
    &&& s.enabled == (if value_or(req.enabled, true) { 1i32 } else { 0i32 })
    &&& s.next_run_at == next_run
    &&& s.insert_sql@ == insert_schedule_sql()
}

/// Resolves a new schedule once its next run time `next_run` is known, for
/// a request whose callback URL has been checked: a fresh id; queue
/// "default", payload "{}", 3 retries, 30000 ms timeout and enabled unless
/// given.
pub fn plan_create_schedule_with(req: CreateScheduleRequest, next_run: String) -> (s: NewSchedule)
    requires
        valid_callback_url(req.callback_url@),
    ensures
        planned_schedule(s, req, next_run),
{
    let id = new_id();
    let enabled: i32 = match req.enabled {
        Some(false) => 0,
        _ => 1,
    };
    NewSchedule {
        id,
        queue_name: match req.queue_name { Some(q) => q, None => String::from_str("default") },
        cron_expression: req.cron_expression,
        callback_url: req.callback_url,
        payload: match req.payload { Some(p) => p, None => String::from_str("{}") },
        max_retries: match req.max_retries { Some(v) => v, None => 3 },
        timeout_ms: match req.timeout_ms { Some(v) => v, None => 30000 },
        enabled,
        next_run_at: next_run,
        insert_sql: String::from_str(
            "INSERT INTO schedules (id, queue_name, cron_expression, callback_url, payload, max_retries, timeout_ms, enabled, next_run_at) VALUES (?1, ?2, ?3, ?4, ?5, ?6, ?7, ?8, ?9) RETURNING *",
        ),
    }
}

/// Resolves a new schedule: the callback URL must be HTTP(S), the cron
/// expression must parse and fire again, and the schedule's next run time
/// is the next instant its expression fires; the other fields as in
/// `plan_create_schedule_with`.
pub fn plan_create_schedule(req: CreateScheduleRequest) -> (r: Result<NewSchedule, ApiError>)
    ensures
        req.callback_url@.len() == 0 ==> (r matches Err(e) && is_bad_request(e, "callback_url is required"@)),
        req.callback_url@.len() > 0 && !valid_callback_url(req.callback_url@) ==> (
            r matches Err(e) && is_bad_request(e, "callback_url must be an HTTP(S) URL"@)),
        valid_callback_url(req.callback_url@) && !cron_accepts(req.cron_expression@) ==> (
            r matches Err(e) && is_bad_request(e, "Invalid cron expression: "@ + cron_error_message(req.cron_expression@))),
        valid_callback_url(req.callback_url@) && cron_accepts(req.cron_expression@) ==> (
            (r matches Ok(s) && planned_schedule(s, req, s.next_run_at)
                && is_next_run_of(req.cron_expression@, s.next_run_at@))
            || (r matches Err(e) && is_bad_request(e, "Cron expression has no upcoming runs"@))),
{
    match validate_callback_url(req.callback_url.as_str()) {
        Ok(()) => {},
        Err(e) => return Err(e),
    }
    let next_run_at = match compute_next_run(req.cron_expression.as_str()) {
        Ok(n) => n,
        Err(e) => return Err(e),
    };
    Ok(plan_create_schedule_with(req, next_run_at))
}

/// The columns a schedule update changes, in the order the statement sets
/// them: a new cron expression also resets the next run time.
pub open spec fn schedule_update_columns(req: UpdateScheduleRequest) -> Seq<Seq<char>> {
    schedule_columns_head(req) + schedule_columns_tail(req)
}

/// The first columns of a schedule update: queue, cron expression with its
/// next run time, callback.
pub open spec fn schedule_columns_head(req: UpdateScheduleRequest) -> Seq<Seq<char>> {
    opt_col(req.queue_name, "queue_name"@)
        + (if req.cron_expression is Some { seq!["cron_expression"@, "next_run_at"@] } else { Seq::empty() })
        + opt_col(req.callback_url, "callback_url"@)
}

/// The last columns of a schedule update: payload, retries, timeout, flag.
pub open spec fn schedule_columns_tail(req: UpdateScheduleRequest) -> Seq<Seq<char>> {
    opt_col(req.payload, "payload"@)
        + opt_col(req.max_retries, "max_retries"@)
        + opt_col(req.timeout_ms, "timeout_ms"@)
        + opt_col(req.enabled, "enabled"@)
}

/// The values of a schedule update, in the order of its columns, with
/// `next_run` as the recomputed next run time.
pub open spec fn schedule_update_binds(req: UpdateScheduleRequest, next_run: Option<String>) -> Seq<BindValue> {
    schedule_binds_head(req, next_run) + schedule_binds_tail(req)
}

pub open spec fn schedule_binds_head(req: UpdateScheduleRequest, next_run: Option<String>) -> Seq<BindValue> {
    opt_bind(text_bind(req.queue_name))
        + opt_bind(text_bind(req.cron_expression))
        + opt_bind(text_bind(next_run))
        + opt_bind(text_bind(req.callback_url))
}

pub open spec fn schedule_binds_tail(req: UpdateScheduleRequest) -> Seq<BindValue> {
    opt_bind(text_bind(req.payload))
        + opt_bind(int_bind(req.max_retries))
        + opt_bind(int_bind(req.timeout_ms))
        + opt_bind(int_bind(flag_value(req.enabled)))
}

/// Records the first changes of a schedule update.
fn schedule_changes_head(
    queue_name: Option<String>,
    cron_expression: Option<String>,
    next_run: Option<String>,
    callback_url: Option<String>,
) -> (r: (Vec<&'static str>, Vec<BindValue>))
    requires
        cron_expression is Some <==> next_run is Some,
    ensures
        r.0@.map_values(|c: &str| c@) == opt_col(queue_name, "queue_name"@)
            + (if cron_expression is Some { seq!["cron_expression"@, "next_run_at"@] } else { Seq::empty() })
            + opt_col(callback_url, "callback_url"@),
        r.1@ == opt_bind(text_bind(queue_name)) + opt_bind(text_bind(cron_expression))
            + opt_bind(text_bind(next_run)) + opt_bind(text_bind(callback_url)),
{
    let ghost (gq, gc, gn, gu) = (queue_name, cron_expression, next_run, callback_url);
    let mut cols: Vec<&'static str> = Vec::new();
    let mut binds: Vec<BindValue> = Vec::new();
    add_change(&mut cols, &mut binds, "queue_name", text_change(queue_name));
    add_change(&mut cols, &mut binds, "cron_expression", text_change(cron_expression));
    add_change(&mut cols, &mut binds, "next_run_at", text_change(next_run));
    add_change(&mut cols, &mut binds, "callback_url", text_change(callback_url));
    assert(cols@.map_values(|c: &str| c@) =~= opt_col(gq, "queue_name"@)
        + (if gc is Some { seq!["cron_expression"@, "next_run_at"@] } else { Seq::empty() })
        + opt_col(gu, "callback_url"@));
    (cols, binds)
}

/// Records the last changes of a schedule update.
fn schedule_changes_tail(
    cols: &mut Vec<&'static str>,
    binds: &mut Vec<BindValue>,
    payload: Option<String>,
    max_retries: Option<i32>,
    timeout_ms: Option<i32>,
    enabled: Option<bool>,
)
    ensures
        final(cols)@.map_values(|c: &str| c@) == old(cols)@.map_values(|c: &str| c@)
            + (opt_col(payload, "payload"@) + opt_col(max_retries, "max_retries"@)
            + opt_col(timeout_ms, "timeout_ms"@) + opt_col(enabled, "enabled"@)),
        final(binds)@ == old(binds)@ + (opt_bind(text_bind(payload)) + opt_bind(int_bind(max_retries))
            + opt_bind(int_bind(timeout_ms)) + opt_bind(int_bind(flag_value(enabled)))),
{
    let ghost c0 = cols@.map_values(|c: &str| c@);
    let ghost b0 = binds@;
    let ghost (gp, gm, gt, ge) = (payload, max_retries, timeout_ms, enabled);
    add_change(cols, binds, "payload", text_change(payload));
    add_change(cols, binds, "max_retries", int_change(max_retries));
    add_change(cols, binds, "timeout_ms", int_change(timeout_ms));
    add_change(cols, binds, "enabled", int_change(flag_change(enabled)));
    assert(cols@.map_values(|c: &str| c@) =~= c0 + (opt_col(gp, "payload"@) + opt_col(gm, "max_retries"@)
        + opt_col(gt, "timeout_ms"@) + opt_col(ge, "enabled"@)));
    assert(binds@ =~= b0 + (opt_bind(text_bind(gp)) + opt_bind(int_bind(gm))
        + opt_bind(int_bind(gt)) + opt_bind(int_bind(flag_value(ge)))));
}

/// A flag stored as an integer: 1 for true, 0 for false.
pub open spec fn flag_value(o: Option<bool>) -> Option<i32> {
    match o {
        Some(b) => Some(if b { 1i32 } else { 0i32 }),
        None => None,
    }
}

/// Stores an optional flag as an optional integer (1 or 0).
pub fn flag_change(o: Option<bool>) -> (r: Option<i32>)
    ensures
        r == flag_value(o),
{
    match o {
        Some(b) => Some(if b { 1 } else { 0 }),
        None => None,
    }
}

/// Every field a schedule update changes gets exactly one value (a new cron
/// expression two: itself and its next run time), bound in the order the
/// statement sets them.
pub proof fn schedule_update_binds_match_columns(req: UpdateScheduleRequest, next_run: Option<String>)
    requires
        req.cron_expression is Some <==> next_run is Some,
    ensures
        schedule_update_binds(req, next_run).len() == schedule_update_columns(req).len(),
{
}

/// The column names a schedule update may set, each distinct from the others.
proof fn lemma_schedule_column_names_distinct()
    ensures
        "queue_name"@ != "cron_expression"@,
        "queue_name"@ != "next_run_at"@,
        "queue_name"@ != "callback_url"@,
        "queue_name"@ != "payload"@,
        "queue_name"@ != "max_retries"@,
        "queue_name"@ != "timeout_ms"@,
        "queue_name"@ != "enabled"@,
        "cron_expression"@ != "next_run_at"@,
        "cron_expression"@ != "callback_url"@,
        "cron_expression"@ != "payload"@,
        "cron_expression"@ != "max_retries"@,
        "cron_expression"@ != "timeout_ms"@,
        "cron_expression"@ != "enabled"@,
        "next_run_at"@ != "callback_url"@,
        "next_run_at"@ != "payload"@,
        "next_run_at"@ != "max_retries"@,
        "next_run_at"@ != "timeout_ms"@,
        "next_run_at"@ != "enabled"@,
        "callback_url"@ != "payload"@,
        "callback_url"@ != "max_retries"@,
        "callback_url"@ != "timeout_ms"@,
        "callback_url"@ != "enabled"@,
        "payload"@ != "max_retries"@,
        "payload"@ != "timeout_ms"@,
        "payload"@ != "enabled"@,
        "max_retries"@ != "timeout_ms"@,
        "max_retries"@ != "enabled"@,
        "timeout_ms"@ != "enabled"@,
{
    reveal_strlit("queue_name");
    reveal_strlit("cron_expression");
    reveal_strlit("next_run_at");
    reveal_strlit("callback_url");
    reveal_strlit("payload");
    reveal_strlit("max_retries");
    reveal_strlit("timeout_ms");
    reveal_strlit("enabled");
    assert("queue_name"@.len() == 10 && "cron_expression"@.len() == 15 && "next_run_at"@.len() == 11 && "callback_url"@.len() == 12 && "payload"@.len() == 7 && "max_retries"@.len() == 11 && "timeout_ms"@.len() == 10 && "enabled"@.len() == 7);
    assert("queue_name"@[0] != "timeout_ms"@[0] && "next_run_at"@[0] != "max_retries"@[0] && "payload"@[0] != "enabled"@[0]);
}

/// A schedule update's columns and values, field by field.
proof fn lemma_schedule_update_shape(req: UpdateScheduleRequest, next_run: Option<String>)
    requires
        req.cron_expression is Some <==> next_run is Some,
    ensures
        schedule_update_columns(req) == (((opt_col(text_bind(req.queue_name), "queue_name"@) + (opt_col(text_bind(req.cron_expression), "cron_expression"@) + opt_col(text_bind(next_run), "next_run_at"@))) + opt_col(text_bind(req.callback_url), "callback_url"@)) + (((opt_col(text_bind(req.payload), "payload"@) + opt_col(int_bind(req.max_retries), "max_retries"@)) + opt_col(int_bind(req.timeout_ms), "timeout_ms"@)) + opt_col(int_bind(flag_value(req.enabled)), "enabled"@))),
        schedule_update_binds(req, next_run) == (((opt_bind(text_bind(req.queue_name)) + (opt_bind(text_bind(req.cron_expression)) + opt_bind(text_bind(next_run)))) + opt_bind(text_bind(req.callback_url))) + (((opt_bind(text_bind(req.payload)) + opt_bind(int_bind(req.max_retries))) + opt_bind(int_bind(req.timeout_ms))) + opt_bind(int_bind(flag_value(req.enabled))))),
{
    assert(opt_col(req.queue_name, "queue_name"@) == opt_col(text_bind(req.queue_name), "queue_name"@));
    assert(opt_col(req.cron_expression, "cron_expression"@) == opt_col(text_bind(req.cron_expression), "cron_expression"@));
    assert(opt_col(req.callback_url, "callback_url"@) == opt_col(text_bind(req.callback_url), "callback_url"@));
    assert(opt_col(req.payload, "payload"@) == opt_col(text_bind(req.payload), "payload"@));
    assert(opt_col(req.max_retries, "max_retries"@) == opt_col(int_bind(req.max_retries), "max_retries"@));
    assert(opt_col(req.timeout_ms, "timeout_ms"@) == opt_col(int_bind(req.timeout_ms), "timeout_ms"@));
    assert(opt_col(req.enabled, "enabled"@) == opt_col(int_bind(flag_value(req.enabled)), "enabled"@));
    assert((if req.cron_expression is Some { seq!["cron_expression"@, "next_run_at"@] } else { Seq::empty() })
        =~= opt_col(text_bind(req.cron_expression), "cron_expression"@) + opt_col(text_bind(next_run), "next_run_at"@));
    vstd::seq_lib::lemma_concat_associative(opt_bind(text_bind(req.queue_name)), opt_bind(text_bind(req.cron_expression)), opt_bind(text_bind(next_run)));
}

proof fn lemma_schedule_sets_queue_name(req: UpdateScheduleRequest, next_run: Option<String>)
    requires
        req.cron_expression is Some <==> next_run is Some,
    ensures
        applies_change(schedule_update_columns(req), schedule_update_binds(req, next_run), "queue_name"@, text_bind(req.queue_name)),
{
    lemma_schedule_column_names_distinct();
    lemma_schedule_update_shape(req, next_run);
    lemma_change_alone("queue_name"@, text_bind(req.queue_name));
    lemma_opt_col_lacks(text_bind(req.cron_expression), "cron_expression"@, "queue_name"@);
    lemma_opt_col_lacks(text_bind(next_run), "next_run_at"@, "queue_name"@);
    lemma_concat_lacks(opt_col(text_bind(req.cron_expression), "cron_expression"@), opt_col(text_bind(next_run), "next_run_at"@), "queue_name"@);
    lemma_change_then(opt_col(text_bind(req.queue_name), "queue_name"@), opt_bind(text_bind(req.queue_name)), "queue_name"@, text_bind(req.queue_name), (opt_col(text_bind(req.cron_expression), "cron_expression"@) + opt_col(text_bind(next_run), "next_run_at"@)), (opt_bind(text_bind(req.cron_expression)) + opt_bind(text_bind(next_run))));
    lemma_opt_col_lacks(text_bind(req.callback_url), "callback_url"@, "queue_name"@);
    lemma_change_then((opt_col(text_bind(req.queue_name), "queue_name"@) + (opt_col(text_bind(req.cron_expression), "cron_expression"@) + opt_col(text_bind(next_run), "next_run_at"@))), (opt_bind(text_bind(req.queue_name)) + (opt_bind(text_bind(req.cron_expression)) + opt_bind(text_bind(next_run)))), "queue_name"@, text_bind(req.queue_name), opt_col(text_bind(req.callback_url), "callback_url"@), opt_bind(text_bind(req.callback_url)));
    lemma_opt_col_lacks(text_bind(req.payload), "payload"@, "queue_name"@);
    lemma_opt_col_lacks(int_bind(req.max_retries), "max_retries"@, "queue_name"@);
    lemma_concat_lacks(opt_col(text_bind(req.payload), "payload"@), opt_col(int_bind(req.max_retries), "max_retries"@), "queue_name"@);
    lemma_opt_col_lacks(int_bind(req.timeout_ms), "timeout_ms"@, "queue_name"@);
    lemma_concat_lacks((opt_col(text_bind(req.payload), "payload"@) + opt_col(int_bind(req.max_retries), "max_retries"@)), opt_col(int_bind(req.timeout_ms), "timeout_ms"@), "queue_name"@);
    lemma_opt_col_lacks(int_bind(flag_value(req.enabled)), "enabled"@, "queue_name"@);
    lemma_concat_lacks(((opt_col(text_bind(req.payload), "payload"@) + opt_col(int_bind(req.max_retries), "max_retries"@)) + opt_col(int_bind(req.timeout_ms), "timeout_ms"@)), opt_col(int_bind(flag_value(req.enabled)), "enabled"@), "queue_name"@);
    lemma_change_then(((opt_col(text_bind(req.queue_name), "queue_name"@) + (opt_col(text_bind(req.cron_expression), "cron_expression"@) + opt_col(text_bind(next_run), "next_run_at"@))) + opt_col(text_bind(req.callback_url), "callback_url"@)), ((opt_bind(text_bind(req.queue_name)) + (opt_bind(text_bind(req.cron_expression)) + opt_bind(text_bind(next_run)))) + opt_bind(text_bind(req.callback_url))), "queue_name"@, text_bind(req.queue_name), (((opt_col(text_bind(req.payload), "payload"@) + opt_col(int_bind(req.max_retries), "max_retries"@)) + opt_col(int_bind(req.timeout_ms), "timeout_ms"@)) + opt_col(int_bind(flag_value(req.enabled)), "enabled"@)), (((opt_bind(text_bind(req.payload)) + opt_bind(int_bind(req.max_retries))) + opt_bind(int_bind(req.timeout_ms))) + opt_bind(int_bind(flag_value(req.enabled)))));
}

proof fn lemma_schedule_sets_cron_expression(req: UpdateScheduleRequest, next_run: Option<String>)
    requires
        req.cron_expression is Some <==> next_run is Some,
    ensures
        applies_change(schedule_update_columns(req), schedule_update_binds(req, next_run), "cron_expression"@, text_bind(req.cron_expression)),
{
    lemma_schedule_column_names_distinct();
    lemma_schedule_update_shape(req, next_run);
    lemma_change_alone("cron_expression"@, text_bind(req.cron_expression));
    lemma_opt_col_lacks(text_bind(next_run), "next_run_at"@, "cron_expression"@);
    lemma_change_then(opt_col(text_bind(req.cron_expression), "cron_expression"@), opt_bind(text_bind(req.cron_expression)), "cron_expression"@, text_bind(req.cron_expression), opt_col(text_bind(next_run), "next_run_at"@), opt_bind(text_bind(next_run)));
    lemma_opt_col_lacks(text_bind(req.queue_name), "queue_name"@, "cron_expression"@);
    lemma_change_after(opt_col(text_bind(req.queue_name), "queue_name"@), opt_bind(text_bind(req.queue_name)), (opt_col(text_bind(req.cron_expression), "cron_expression"@) + opt_col(text_bind(next_run), "next_run_at"@)), (opt_bind(text_bind(req.cron_expression)) + opt_bind(text_bind(next_run))), "cron_expression"@, text_bind(req.cron_expression));
    lemma_opt_col_lacks(text_bind(req.callback_url), "callback_url"@, "cron_expression"@);
    lemma_change_then((opt_col(text_bind(req.queue_name), "queue_name"@) + (opt_col(text_bind(req.cron_expression), "cron_expression"@) + opt_col(text_bind(next_run), "next_run_at"@))), (opt_bind(text_bind(req.queue_name)) + (opt_bind(text_bind(req.cron_expression)) + opt_bind(text_bind(next_run)))), "cron_expression"@, text_bind(req.cron_expression), opt_col(text_bind(req.callback_url), "callback_url"@), opt_bind(text_bind(req.callback_url)));
    lemma_opt_col_lacks(text_bind(req.payload), "payload"@, "cron_expression"@);
    lemma_opt_col_lacks(int_bind(req.max_retries), "max_retries"@, "cron_expression"@);
    lemma_concat_lacks(opt_col(text_bind(req.payload), "payload"@), opt_col(int_bind(req.max_retries), "max_retries"@), "cron_expression"@);
    lemma_opt_col_lacks(int_bind(req.timeout_ms), "timeout_ms"@, "cron_expression"@);
    lemma_concat_lacks((opt_col(text_bind(req.payload), "payload"@) + opt_col(int_bind(req.max_retries), "max_retries"@)), opt_col(int_bind(req.timeout_ms), "timeout_ms"@), "cron_expression"@);
    lemma_opt_col_lacks(int_bind(flag_value(req.enabled)), "enabled"@, "cron_expression"@);
    lemma_concat_lacks(((opt_col(text_bind(req.payload), "payload"@) + opt_col(int_bind(req.max_retries), "max_retries"@)) + opt_col(int_bind(req.timeout_ms), "timeout_ms"@)), opt_col(int_bind(flag_value(req.enabled)), "enabled"@), "cron_expression"@);
    lemma_change_then(((opt_col(text_bind(req.queue_name), "queue_name"@) + (opt_col(text_bind(req.cron_expression), "cron_expression"@) + opt_col(text_bind(next_run), "next_run_at"@))) + opt_col(text_bind(req.callback_url), "callback_url"@)), ((opt_bind(text_bind(req.queue_name)) + (opt_bind(text_bind(req.cron_expression)) + opt_bind(text_bind(next_run)))) + opt_bind(text_bind(req.callback_url))), "cron_expression"@, text_bind(req.cron_expression), (((opt_col(text_bind(req.payload), "payload"@) + opt_col(int_bind(req.max_retries), "max_retries"@)) + opt_col(int_bind(req.timeout_ms), "timeout_ms"@)) + opt_col(int_bind(flag_value(req.enabled)), "enabled"@)), (((opt_bind(text_bind(req.payload)) + opt_bind(int_bind(req.max_retries))) + opt_bind(int_bind(req.timeout_ms))) + opt_bind(int_bind(flag_value(req.enabled)))));
}

proof fn lemma_schedule_sets_next_run_at(req: UpdateScheduleRequest, next_run: Option<String>)
    requires
        req.cron_expression is Some <==> next_run is Some,
    ensures
        applies_change(schedule_update_columns(req), schedule_update_binds(req, next_run), "next_run_at"@, text_bind(next_run)),
{
    lemma_schedule_column_names_distinct();
    lemma_schedule_update_shape(req, next_run);
    lemma_change_alone("next_run_at"@, text_bind(next_run));
    lemma_opt_col_lacks(text_bind(req.cron_expression), "cron_expression"@, "next_run_at"@);
    lemma_change_after(opt_col(text_bind(req.cron_expression), "cron_expression"@), opt_bind(text_bind(req.cron_expression)), opt_col(text_bind(next_run), "next_run_at"@), opt_bind(text_bind(next_run)), "next_run_at"@, text_bind(next_run));
    lemma_opt_col_lacks(text_bind(req.queue_name), "queue_name"@, "next_run_at"@);
    lemma_change_after(opt_col(text_bind(req.queue_name), "queue_name"@), opt_bind(text_bind(req.queue_name)), (opt_col(text_bind(req.cron_expression), "cron_expression"@) + opt_col(text_bind(next_run), "next_run_at"@)), (opt_bind(text_bind(req.cron_expression)) + opt_bind(text_bind(next_run))), "next_run_at"@, text_bind(next_run));
    lemma_opt_col_lacks(text_bind(req.callback_url), "callback_url"@, "next_run_at"@);
    lemma_change_then((opt_col(text_bind(req.queue_name), "queue_name"@) + (opt_col(text_bind(req.cron_expression), "cron_expression"@) + opt_col(text_bind(next_run), "next_run_at"@))), (opt_bind(text_bind(req.queue_name)) + (opt_bind(text_bind(req.cron_expression)) + opt_bind(text_bind(next_run)))), "next_run_at"@, text_bind(next_run), opt_col(text_bind(req.callback_url), "callback_url"@), opt_bind(text_bind(req.callback_url)));
    lemma_opt_col_lacks(text_bind(req.payload), "payload"@, "next_run_at"@);
    lemma_opt_col_lacks(int_bind(req.max_retries), "max_retries"@, "next_run_at"@);
    lemma_concat_lacks(opt_col(text_bind(req.payload), "payload"@), opt_col(int_bind(req.max_retries), "max_retries"@), "next_run_at"@);
    lemma_opt_col_lacks(int_bind(req.timeout_ms), "timeout_ms"@, "next_run_at"@);
    lemma_concat_lacks((opt_col(text_bind(req.payload), "payload"@) + opt_col(int_bind(req.max_retries), "max_retries"@)), opt_col(int_bind(req.timeout_ms), "timeout_ms"@), "next_run_at"@);
    lemma_opt_col_lacks(int_bind(flag_value(req.enabled)), "enabled"@, "next_run_at"@);
    lemma_concat_lacks(((opt_col(text_bind(req.payload), "payload"@) + opt_col(int_bind(req.max_retries), "max_retries"@)) + opt_col(int_bind(req.timeout_ms), "timeout_ms"@)), opt_col(int_bind(flag_value(req.enabled)), "enabled"@), "next_run_at"@);
    lemma_change_then(((opt_col(text_bind(req.queue_name), "queue_name"@) + (opt_col(text_bind(req.cron_expression), "cron_expression"@) + opt_col(text_bind(next_run), "next_run_at"@))) + opt_col(text_bind(req.callback_url), "callback_url"@)), ((opt_bind(text_bind(req.queue_name)) + (opt_bind(text_bind(req.cron_expression)) + opt_bind(text_bind(next_run)))) + opt_bind(text_bind(req.callback_url))), "next_run_at"@, text_bind(next_run), (((opt_col(text_bind(req.payload), "payload"@) + opt_col(int_bind(req.max_retries), "max_retries"@)) + opt_col(int_bind(req.timeout_ms), "timeout_ms"@)) + opt_col(int_bind(flag_value(req.enabled)), "enabled"@)), (((opt_bind(text_bind(req.payload)) + opt_bind(int_bind(req.max_retries))) + opt_bind(int_bind(req.timeout_ms))) + opt_bind(int_bind(flag_value(req.enabled)))));
}

proof fn lemma_schedule_sets_callback_url(req: UpdateScheduleRequest, next_run: Option<String>)
    requires
        req.cron_expression is Some <==> next_run is Some,
    ensures
        applies_change(schedule_update_columns(req), schedule_update_binds(req, next_run), "callback_url"@, text_bind(req.callback_url)),
{
    lemma_schedule_column_names_distinct();
    lemma_schedule_update_shape(req, next_run);
    lemma_change_alone("callback_url"@, text_bind(req.callback_url));
    lemma_opt_col_lacks(text_bind(req.queue_name), "queue_name"@, "callback_url"@);
    lemma_opt_col_lacks(text_bind(req.cron_expression), "cron_expression"@, "callback_url"@);
    lemma_opt_col_lacks(text_bind(next_run), "next_run_at"@, "callback_url"@);
    lemma_concat_lacks(opt_col(text_bind(req.cron_expression), "cron_expression"@), opt_col(text_bind(next_run), "next_run_at"@), "callback_url"@);
    lemma_concat_lacks(opt_col(text_bind(req.queue_name), "queue_name"@), (opt_col(text_bind(req.cron_expression), "cron_expression"@) + opt_col(text_bind(next_run), "next_run_at"@)), "callback_url"@);
    lemma_change_after((opt_col(text_bind(req.queue_name), "queue_name"@) + (opt_col(text_bind(req.cron_expression), "cron_expression"@) + opt_col(text_bind(next_run), "next_run_at"@))), (opt_bind(text_bind(req.queue_name)) + (opt_bind(text_bind(req.cron_expression)) + opt_bind(text_bind(next_run)))), opt_col(text_bind(req.callback_url), "callback_url"@), opt_bind(text_bind(req.callback_url)), "callback_url"@, text_bind(req.callback_url));
    lemma_opt_col_lacks(text_bind(req.payload), "payload"@, "callback_url"@);
    lemma_opt_col_lacks(int_bind(req.max_retries), "max_retries"@, "callback_url"@);
    lemma_concat_lacks(opt_col(text_bind(req.payload), "payload"@), opt_col(int_bind(req.max_retries), "max_retries"@), "callback_url"@);
    lemma_opt_col_lacks(int_bind(req.timeout_ms), "timeout_ms"@, "callback_url"@);
    lemma_concat_lacks((opt_col(text_bind(req.payload), "payload"@) + opt_col(int_bind(req.max_retries), "max_retries"@)), opt_col(int_bind(req.timeout_ms), "timeout_ms"@), "callback_url"@);
    lemma_opt_col_lacks(int_bind(flag_value(req.enabled)), "enabled"@, "callback_url"@);
    lemma_concat_lacks(((opt_col(text_bind(req.payload), "payload"@) + opt_col(int_bind(req.max_retries), "max_retries"@)) + opt_col(int_bind(req.timeout_ms), "timeout_ms"@)), opt_col(int_bind(flag_value(req.enabled)), "enabled"@), "callback_url"@);
    lemma_change_then(((opt_col(text_bind(req.queue_name), "queue_name"@) + (opt_col(text_bind(req.cron_expression), "cron_expression"@) + opt_col(text_bind(next_run), "next_run_at"@))) + opt_col(text_bind(req.callback_url), "callback_url"@)), ((opt_bind(text_bind(req.queue_name)) + (opt_bind(text_bind(req.cron_expression)) + opt_bind(text_bind(next_run)))) + opt_bind(text_bind(req.callback_url))), "callback_url"@, text_bind(req.callback_url), (((opt_col(text_bind(req.payload), "payload"@) + opt_col(int_bind(req.max_retries), "max_retries"@)) + opt_col(int_bind(req.timeout_ms), "timeout_ms"@)) + opt_col(int_bind(flag_value(req.enabled)), "enabled"@)), (((opt_bind(text_bind(req.payload)) + opt_bind(int_bind(req.max_retries))) + opt_bind(int_bind(req.timeout_ms))) + opt_bind(int_bind(flag_value(req.enabled)))));
}

proof fn lemma_schedule_sets_payload(req: UpdateScheduleRequest, next_run: Option<String>)
    requires
        req.cron_expression is Some <==> next_run is Some,
    ensures
        applies_change(schedule_update_columns(req), schedule_update_binds(req, next_run), "payload"@, text_bind(req.payload)),
{
    lemma_schedule_column_names_distinct();
    lemma_schedule_update_shape(req, next_run);
    lemma_change_alone("payload"@, text_bind(req.payload));
    lemma_opt_col_lacks(int_bind(req.max_retries), "max_retries"@, "payload"@);
    lemma_change_then(opt_col(text_bind(req.payload), "payload"@), opt_bind(text_bind(req.payload)), "payload"@, text_bind(req.payload), opt_col(int_bind(req.max_retries), "max_retries"@), opt_bind(int_bind(req.max_retries)));
    lemma_opt_col_lacks(int_bind(req.timeout_ms), "timeout_ms"@, "payload"@);
    lemma_change_then((opt_col(text_bind(req.payload), "payload"@) + opt_col(int_bind(req.max_retries), "max_retries"@)), (opt_bind(text_bind(req.payload)) + opt_bind(int_bind(req.max_retries))), "payload"@, text_bind(req.payload), opt_col(int_bind(req.timeout_ms), "timeout_ms"@), opt_bind(int_bind(req.timeout_ms)));
    lemma_opt_col_lacks(int_bind(flag_value(req.enabled)), "enabled"@, "payload"@);
    lemma_change_then(((opt_col(text_bind(req.payload), "payload"@) + opt_col(int_bind(req.max_retries), "max_retries"@)) + opt_col(int_bind(req.timeout_ms), "timeout_ms"@)), ((opt_bind(text_bind(req.payload)) + opt_bind(int_bind(req.max_retries))) + opt_bind(int_bind(req.timeout_ms))), "payload"@, text_bind(req.payload), opt_col(int_bind(flag_value(req.enabled)), "enabled"@), opt_bind(int_bind(flag_value(req.enabled))));
    lemma_opt_col_lacks(text_bind(req.queue_name), "queue_name"@, "payload"@);
    lemma_opt_col_lacks(text_bind(req.cron_expression), "cron_expression"@, "payload"@);
    lemma_opt_col_lacks(text_bind(next_run), "next_run_at"@, "payload"@);
    lemma_concat_lacks(opt_col(text_bind(req.cron_expression), "cron_expression"@), opt_col(text_bind(next_run), "next_run_at"@), "payload"@);
    lemma_concat_lacks(opt_col(text_bind(req.queue_name), "queue_name"@), (opt_col(text_bind(req.cron_expression), "cron_expression"@) + opt_col(text_bind(next_run), "next_run_at"@)), "payload"@);
    lemma_opt_col_lacks(text_bind(req.callback_url), "callback_url"@, "payload"@);
    lemma_concat_lacks((opt_col(text_bind(req.queue_name), "queue_name"@) + (opt_col(text_bind(req.cron_expression), "cron_expression"@) + opt_col(text_bind(next_run), "next_run_at"@))), opt_col(text_bind(req.callback_url), "callback_url"@), "payload"@);
    lemma_change_after(((opt_col(text_bind(req.queue_name), "queue_name"@) + (opt_col(text_bind(req.cron_expression), "cron_expression"@) + opt_col(text_bind(next_run), "next_run_at"@))) + opt_col(text_bind(req.callback_url), "callback_url"@)), ((opt_bind(text_bind(req.queue_name)) + (opt_bind(text_bind(req.cron_expression)) + opt_bind(text_bind(next_run)))) + opt_bind(text_bind(req.callback_url))), (((opt_col(text_bind(req.payload), "payload"@) + opt_col(int_bind(req.max_retries), "max_retries"@)) + opt_col(int_bind(req.timeout_ms), "timeout_ms"@)) + opt_col(int_bind(flag_value(req.enabled)), "enabled"@)), (((opt_bind(text_bind(req.payload)) + opt_bind(int_bind(req.max_retries))) + opt_bind(int_bind(req.timeout_ms))) + opt_bind(int_bind(flag_value(req.enabled)))), "payload"@, text_bind(req.payload));
}

proof fn lemma_schedule_sets_max_retries(req: UpdateScheduleRequest, next_run: Option<String>)
    requires
        req.cron_expression is Some <==> next_run is Some,
    ensures
        applies_change(schedule_update_columns(req), schedule_update_binds(req, next_run), "max_retries"@, int_bind(req.max_retries)),
{
    lemma_schedule_column_names_distinct();
    lemma_schedule_update_shape(req, next_run);
    lemma_change_alone("max_retries"@, int_bind(req.max_retries));
    lemma_opt_col_lacks(text_bind(req.payload), "payload"@, "max_retries"@);
    lemma_change_after(opt_col(text_bind(req.payload), "payload"@), opt_bind(text_bind(req.payload)), opt_col(int_bind(req.max_retries), "max_retries"@), opt_bind(int_bind(req.max_retries)), "max_retries"@, int_bind(req.max_retries));
    lemma_opt_col_lacks(int_bind(req.timeout_ms), "timeout_ms"@, "max_retries"@);
    lemma_change_then((opt_col(text_bind(req.payload), "payload"@) + opt_col(int_bind(req.max_retries), "max_retries"@)), (opt_bind(text_bind(req.payload)) + opt_bind(int_bind(req.max_retries))), "max_retries"@, int_bind(req.max_retries), opt_col(int_bind(req.timeout_ms), "timeout_ms"@), opt_bind(int_bind(req.timeout_ms)));
    lemma_opt_col_lacks(int_bind(flag_value(req.enabled)), "enabled"@, "max_retries"@);
    lemma_change_then(((opt_col(text_bind(req.payload), "payload"@) + opt_col(int_bind(req.max_retries), "max_retries"@)) + opt_col(int_bind(req.timeout_ms), "timeout_ms"@)), ((opt_bind(text_bind(req.payload)) + opt_bind(int_bind(req.max_retries))) + opt_bind(int_bind(req.timeout_ms))), "max_retries"@, int_bind(req.max_retries), opt_col(int_bind(flag_value(req.enabled)), "enabled"@), opt_bind(int_bind(flag_value(req.enabled))));
    lemma_opt_col_lacks(text_bind(req.queue_name), "queue_name"@, "max_retries"@);
    lemma_opt_col_lacks(text_bind(req.cron_expression), "cron_expression"@, "max_retries"@);
    lemma_opt_col_lacks(text_bind(next_run), "next_run_at"@, "max_retries"@);
    lemma_concat_lacks(opt_col(text_bind(req.cron_expression), "cron_expression"@), opt_col(text_bind(next_run), "next_run_at"@), "max_retries"@);
    lemma_concat_lacks(opt_col(text_bind(req.queue_name), "queue_name"@), (opt_col(text_bind(req.cron_expression), "cron_expression"@) + opt_col(text_bind(next_run), "next_run_at"@)), "max_retries"@);
    lemma_opt_col_lacks(text_bind(req.callback_url), "callback_url"@, "max_retries"@);
    lemma_concat_lacks((opt_col(text_bind(req.queue_name), "queue_name"@) + (opt_col(text_bind(req.cron_expression), "cron_expression"@) + opt_col(text_bind(next_run), "next_run_at"@))), opt_col(text_bind(req.callback_url), "callback_url"@), "max_retries"@);
    lemma_change_after(((opt_col(text_bind(req.queue_name), "queue_name"@) + (opt_col(text_bind(req.cron_expression), "cron_expression"@) + opt_col(text_bind(next_run), "next_run_at"@))) + opt_col(text_bind(req.callback_url), "callback_url"@)), ((opt_bind(text_bind(req.queue_name)) + (opt_bind(text_bind(req.cron_expression)) + opt_bind(text_bind(next_run)))) + opt_bind(text_bind(req.callback_url))), (((opt_col(text_bind(req.payload), "payload"@) + opt_col(int_bind(req.max_retries), "max_retries"@)) + opt_col(int_bind(req.timeout_ms), "timeout_ms"@)) + opt_col(int_bind(flag_value(req.enabled)), "enabled"@)), (((opt_bind(text_bind(req.payload)) + opt_bind(int_bind(req.max_retries))) + opt_bind(int_bind(req.timeout_ms))) + opt_bind(int_bind(flag_value(req.enabled)))), "max_retries"@, int_bind(req.max_retries));
}

proof fn lemma_schedule_sets_timeout_ms(req: UpdateScheduleRequest, next_run: Option<String>)
    requires
        req.cron_expression is Some <==> next_run is Some,
    ensures
        applies_change(schedule_update_columns(req), schedule_update_binds(req, next_run), "timeout_ms"@, int_bind(req.timeout_ms)),
{
    lemma_schedule_column_names_distinct();
    lemma_schedule_update_shape(req, next_run);
    lemma_change_alone("timeout_ms"@, int_bind(req.timeout_ms));
    lemma_opt_col_lacks(text_bind(req.payload), "payload"@, "timeout_ms"@);
    lemma_opt_col_lacks(int_bind(req.max_retries), "max_retries"@, "timeout_ms"@);
    lemma_concat_lacks(opt_col(text_bind(req.payload), "payload"@), opt_col(int_bind(req.max_retries), "max_retries"@), "timeout_ms"@);
    lemma_change_after((opt_col(text_bind(req.payload), "payload"@) + opt_col(int_bind(req.max_retries), "max_retries"@)), (opt_bind(text_bind(req.payload)) + opt_bind(int_bind(req.max_retries))), opt_col(int_bind(req.timeout_ms), "timeout_ms"@), opt_bind(int_bind(req.timeout_ms)), "timeout_ms"@, int_bind(req.timeout_ms));
    lemma_opt_col_lacks(int_bind(flag_value(req.enabled)), "enabled"@, "timeout_ms"@);
    lemma_change_then(((opt_col(text_bind(req.payload), "payload"@) + opt_col(int_bind(req.max_retries), "max_retries"@)) + opt_col(int_bind(req.timeout_ms), "timeout_ms"@)), ((opt_bind(text_bind(req.payload)) + opt_bind(int_bind(req.max_retries))) + opt_bind(int_bind(req.timeout_ms))), "timeout_ms"@, int_bind(req.timeout_ms), opt_col(int_bind(flag_value(req.enabled)), "enabled"@), opt_bind(int_bind(flag_value(req.enabled))));
    lemma_opt_col_lacks(text_bind(req.queue_name), "queue_name"@, "timeout_ms"@);
    lemma_opt_col_lacks(text_bind(req.cron_expression), "cron_expression"@, "timeout_ms"@);
    lemma_opt_col_lacks(text_bind(next_run), "next_run_at"@, "timeout_ms"@);
    lemma_concat_lacks(opt_col(text_bind(req.cron_expression), "cron_expression"@), opt_col(text_bind(next_run), "next_run_at"@), "timeout_ms"@);
    lemma_concat_lacks(opt_col(text_bind(req.queue_name), "queue_name"@), (opt_col(text_bind(req.cron_expression), "cron_expression"@) + opt_col(text_bind(next_run), "next_run_at"@)), "timeout_ms"@);
    lemma_opt_col_lacks(text_bind(req.callback_url), "callback_url"@, "timeout_ms"@);
    lemma_concat_lacks((opt_col(text_bind(req.queue_name), "queue_name"@) + (opt_col(text_bind(req.cron_expression), "cron_expression"@) + opt_col(text_bind(next_run), "next_run_at"@))), opt_col(text_bind(req.callback_url), "callback_url"@), "timeout_ms"@);
    lemma_change_after(((opt_col(text_bind(req.queue_name), "queue_name"@) + (opt_col(text_bind(req.cron_expression), "cron_expression"@) + opt_col(text_bind(next_run), "next_run_at"@))) + opt_col(text_bind(req.callback_url), "callback_url"@)), ((opt_bind(text_bind(req.queue_name)) + (opt_bind(text_bind(req.cron_expression)) + opt_bind(text_bind(next_run)))) + opt_bind(text_bind(req.callback_url))), (((opt_col(text_bind(req.payload), "payload"@) + opt_col(int_bind(req.max_retries), "max_retries"@)) + opt_col(int_bind(req.timeout_ms), "timeout_ms"@)) + opt_col(int_bind(flag_value(req.enabled)), "enabled"@)), (((opt_bind(text_bind(req.payload)) + opt_bind(int_bind(req.max_retries))) + opt_bind(int_bind(req.timeout_ms))) + opt_bind(int_bind(flag_value(req.enabled)))), "timeout_ms"@, int_bind(req.timeout_ms));
}

proof fn lemma_schedule_sets_enabled(req: UpdateScheduleRequest, next_run: Option<String>)
    requires
        req.cron_expression is Some <==> next_run is Some,
    ensures
        applies_change(schedule_update_columns(req), schedule_update_binds(req, next_run), "enabled"@, int_bind(flag_value(req.enabled))),
{
    lemma_schedule_column_names_distinct();
    lemma_schedule_update_shape(req, next_run);
    lemma_change_alone("enabled"@, int_bind(flag_value(req.enabled)));
    lemma_opt_col_lacks(text_bind(req.payload), "payload"@, "enabled"@);
    lemma_opt_col_lacks(int_bind(req.max_retries), "max_retries"@, "enabled"@);
    lemma_concat_lacks(opt_col(text_bind(req.payload), "payload"@), opt_col(int_bind(req.max_retries), "max_retries"@), "enabled"@);
    lemma_opt_col_lacks(int_bind(req.timeout_ms), "timeout_ms"@, "enabled"@);
    lemma_concat_lacks((opt_col(text_bind(req.payload), "payload"@) + opt_col(int_bind(req.max_retries), "max_retries"@)), opt_col(int_bind(req.timeout_ms), "timeout_ms"@), "enabled"@);
    lemma_change_after(((opt_col(text_bind(req.payload), "payload"@) + opt_col(int_bind(req.max_retries), "max_retries"@)) + opt_col(int_bind(req.timeout_ms), "timeout_ms"@)), ((opt_bind(text_bind(req.payload)) + opt_bind(int_bind(req.max_retries))) + opt_bind(int_bind(req.timeout_ms))), opt_col(int_bind(flag_value(req.enabled)), "enabled"@), opt_bind(int_bind(flag_value(req.enabled))), "enabled"@, int_bind(flag_value(req.enabled)));
    lemma_opt_col_lacks(text_bind(req.queue_name), "queue_name"@, "enabled"@);
    lemma_opt_col_lacks(text_bind(req.cron_expression), "cron_expression"@, "enabled"@);
    lemma_opt_col_lacks(text_bind(next_run), "next_run_at"@, "enabled"@);
    lemma_concat_lacks(opt_col(text_bind(req.cron_expression), "cron_expression"@), opt_col(text_bind(next_run), "next_run_at"@), "enabled"@);
    lemma_concat_lacks(opt_col(text_bind(req.queue_name), "queue_name"@), (opt_col(text_bind(req.cron_expression), "cron_expression"@) + opt_col(text_bind(next_run), "next_run_at"@)), "enabled"@);
    lemma_opt_col_lacks(text_bind(req.callback_url), "callback_url"@, "enabled"@);
    lemma_concat_lacks((opt_col(text_bind(req.queue_name), "queue_name"@) + (opt_col(text_bind(req.cron_expression), "cron_expression"@) + opt_col(text_bind(next_run), "next_run_at"@))), opt_col(text_bind(req.callback_url), "callback_url"@), "enabled"@);
    lemma_change_after(((opt_col(text_bind(req.queue_name), "queue_name"@) + (opt_col(text_bind(req.cron_expression), "cron_expression"@) + opt_col(text_bind(next_run), "next_run_at"@))) + opt_col(text_bind(req.callback_url), "callback_url"@)), ((opt_bind(text_bind(req.queue_name)) + (opt_bind(text_bind(req.cron_expression)) + opt_bind(text_bind(next_run)))) + opt_bind(text_bind(req.callback_url))), (((opt_col(text_bind(req.payload), "payload"@) + opt_col(int_bind(req.max_retries), "max_retries"@)) + opt_col(int_bind(req.timeout_ms), "timeout_ms"@)) + opt_col(int_bind(flag_value(req.enabled)), "enabled"@)), (((opt_bind(text_bind(req.payload)) + opt_bind(int_bind(req.max_retries))) + opt_bind(int_bind(req.timeout_ms))) + opt_bind(int_bind(flag_value(req.enabled)))), "enabled"@, int_bind(flag_value(req.enabled)));
}

/// Each field given in a schedule update is written to the column of the
/// same name, bound to the given value; a new cron expression also sets
/// `next_run_at` to its recomputed next run time; the enabled flag is
/// stored as 1 or 0; and a field not given leaves its column out of the
/// statement.
pub proof fn schedule_update_sets_named_columns(req: UpdateScheduleRequest, next_run: Option<String>)
    requires
        req.cron_expression is Some <==> next_run is Some,
    ensures
        ({
            let cols = schedule_update_columns(req);
            let binds = schedule_update_binds(req, next_run);
            &&& applies_change(cols, binds, "queue_name"@, text_bind(req.queue_name))
            &&& applies_change(cols, binds, "cron_expression"@, text_bind(req.cron_expression))
            &&& applies_change(cols, binds, "next_run_at"@, text_bind(next_run))
            &&& applies_change(cols, binds, "callback_url"@, text_bind(req.callback_url))
            &&& applies_change(cols, binds, "payload"@, text_bind(req.payload))
            &&& applies_change(cols, binds, "max_retries"@, int_bind(req.max_retries))
            &&& applies_change(cols, binds, "timeout_ms"@, int_bind(req.timeout_ms))
            &&& applies_change(cols, binds, "enabled"@, int_bind(flag_value(req.enabled)))
        }),
{
    lemma_schedule_sets_queue_name(req, next_run);
    lemma_schedule_sets_cron_expression(req, next_run);
    lemma_schedule_sets_next_run_at(req, next_run);
    lemma_schedule_sets_callback_url(req, next_run);
    lemma_schedule_sets_payload(req, next_run);
    lemma_schedule_sets_max_retries(req, next_run);
    lemma_schedule_sets_timeout_ms(req, next_run);
    lemma_schedule_sets_enabled(req, next_run);
}

/// Plans a partial schedule update once the next run time of a new cron
/// expression (`next_run`, given exactly when `req.cron_expression` is) is
/// known: only the given fields change, each taking the next placeholder
/// from `?2` on; the update time is always refreshed. A request that
/// changes nothing is a bad request.
pub fn plan_schedule_update_with(req: UpdateScheduleRequest, next_run: Option<String>) -> (r: Result<UpdatePlan, ApiError>)
    requires
        req.cron_expression is Some <==> next_run is Some,
    ensures
        schedule_update_columns(req).len() == 0 ==> (r matches Err(e) && is_bad_request(e, "No fields to update"@)),
        schedule_update_columns(req).len() > 0 ==> (r matches Ok(p) && {
            &&& p.sql@ == update_sql("schedules"@, "id"@, schedule_update_columns(req))
            &&& p.binds@ == schedule_update_binds(req, next_run)
        }),
{
    let ghost g = req;
    let ghost gn = next_run;
    let (mut cols, mut binds) = schedule_changes_head(req.queue_name, req.cron_expression, next_run, req.callback_url);
    assert(cols@.map_values(|c: &str| c@) == schedule_columns_head(g));
    schedule_changes_tail(&mut cols, &mut binds, req.payload, req.max_retries, req.timeout_ms, req.enabled);
    assert(cols@.map_values(|c: &str| c@) == schedule_update_columns(g));
    assert(binds@ == schedule_update_binds(g, gn));
    if cols.len() == 0 {
        return Err(ApiError::BadRequest(String::from_str("No fields to update")));
    }
    let sql = build_update_sql("schedules", "id", &cols);
    Ok(UpdatePlan { sql, binds })
}

/// Plans a partial schedule update, recomputing the next run time when the
/// cron expression changes: an expression that does not parse (or never
/// fires again) fails the request before anything else is looked at.
pub fn plan_update_schedule(req: UpdateScheduleRequest) -> (r: Result<UpdatePlan, ApiError>)
    ensures
        (req.cron_expression is Some && !cron_accepts(req.cron_expression->0@)) ==> (
            r matches Err(e) && is_bad_request(e, "Invalid cron expression: "@ + cron_error_message(req.cron_expression->0@))),
        (req.cron_expression is Some && cron_accepts(req.cron_expression->0@)) ==> (
            (r matches Err(e) && is_bad_request(e, "Cron expression has no upcoming runs"@))
            || (r matches Ok(p) && p.sql@ == update_sql("schedules"@, "id"@, schedule_update_columns(req))
                && exists|n: String| #[trigger] is_next_run_of(req.cron_expression->0@, n@)
                    && p.binds@ == schedule_update_binds(req, Some(n)))),
        req.cron_expression is None && schedule_update_columns(req).len() == 0 ==> (
            r matches Err(e) && is_bad_request(e, "No fields to update"@)),
        req.cron_expression is None && schedule_update_columns(req).len() > 0 ==> (
            r matches Ok(p) && p.sql@ == update_sql("schedules"@, "id"@, schedule_update_columns(req))
            && p.binds@ == schedule_update_binds(req, None)),
{
    let next_run = match &req.cron_expression {
        Some(c) => match compute_next_run(c.as_str()) {
            Ok(n) => Some(n),
            Err(e) => return Err(e),
        },
        None => None,
    };
    let ghost gn = next_run;
    let r = plan_schedule_update_with(req, next_run);
    proof {
        if req.cron_expression is Some {
            assert(schedule_update_columns(req).len() > 0);
            assert(gn == Some(gn->0));
        }
    }
    r
}

/// "Schedule '{id}' not found".
pub fn schedule_not_found(id: &str) -> (e: ApiError)
    ensures
        is_not_found(e, "Schedule '"@ + id@ + "' not found"@),
{
    ApiError::NotFound(concat3("Schedule '", id, "' not found"))
}

} // verus!
