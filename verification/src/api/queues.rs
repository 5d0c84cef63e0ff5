//! The queues API: statistics rows, creation defaults, the UPDATE statement
//! for partial changes, and the answers for deletion and lookup.

use vstd::prelude::*;
use vstd::string::*;
use crate::api::error::{ApiError, is_bad_request, is_conflict, is_not_found};
use crate::api::jobs::{text_or, value_or};
use crate::models::queue::{CreateQueueRequest, QueueStats, UpdateQueueRequest};
use crate::sqlbuild::{assignment_list, assignments, comma_list, comma_list_push, insert_statement, placeholders};
use crate::sqltime::now_expr;
use crate::text::{concat3, contains, i64_decimal, int_decimal, nat_digits, seq_contains};

verus! {

/// A queue's statistics from its row: `paused` is stored as an integer,
/// anything but zero meaning paused.
pub fn queue_stats_from_row(
    name: String,
    max_concurrency: i32,
    paused: i32,
    pending: i64,
    running: i64,
    completed: i64,
    dead: i64,
) -> (r: QueueStats)
    ensures
        r == (QueueStats { name, max_concurrency, paused: paused != 0, pending, running, completed, dead }),
{
    QueueStats { name, max_concurrency, paused: paused != 0, pending, running, completed, dead }
}

/// "Queue '{name}' not found".
pub fn queue_not_found(name: &str) -> (e: ApiError)
    ensures
        is_not_found(e, "Queue '"@ + name@ + "' not found"@),
{
    ApiError::NotFound(concat3("Queue '", name, "' not found"))
}

/// A queue ready to be inserted, every default resolved; `insert_sql`
/// binds the fields in declaration order to `?1`..`?7`.
#[derive(Debug, Clone, PartialEq)]
pub struct NewQueue {
    pub name: String,
    pub max_concurrency: i32,
    pub rate_limit_rps: Option<u64>,
    pub max_retries: i32,
    pub retry_backoff: String,
    pub base_delay_ms: i32,
    pub max_delay_ms: i32,
    pub insert_sql: String,
}

pub open spec fn insert_queue_sql() -> Seq<char> {
    "INSERT INTO queues (name, max_concurrency, rate_limit_rps, max_retries, retry_backoff, base_delay_ms, max_delay_ms) VALUES (?1, ?2, ?3, ?4, ?5, ?6, ?7) RETURNING *"@
}

/// The stored fields of a queue in the order `NewQueue` declares them, each
/// named as its column.
pub open spec fn new_queue_columns() -> Seq<Seq<char>> {
    seq!["name"@, "max_concurrency"@, "rate_limit_rps"@, "max_retries"@, "retry_backoff"@, "base_delay_ms"@, "max_delay_ms"@]
}

proof fn lemma_new_queue_column_list()
    ensures
        comma_list(new_queue_columns()) == "name, max_concurrency, rate_limit_rps, max_retries, retry_backoff, base_delay_ms, max_delay_ms"@,
{
    reveal_strlit("name");
    reveal_strlit("max_concurrency");
    reveal_strlit("rate_limit_rps");
    reveal_strlit("max_retries");
    reveal_strlit("retry_backoff");
    reveal_strlit("base_delay_ms");
    reveal_strlit("max_delay_ms");
    reveal_strlit(", ");
    reveal_strlit("name, max_concurrency, rate_limit_rps, max_retries, retry_backoff, base_delay_ms, max_delay_ms");
    let mut c: Seq<Seq<char>> = seq!["name"@];
    let mut ct: Seq<char> = "name"@;
    comma_list_push(c, "max_concurrency"@);
    c = c.push("max_concurrency"@);
    ct = ct + ", "@ + "max_concurrency"@;
    comma_list_push(c, "rate_limit_rps"@);
    c = c.push("rate_limit_rps"@);
    ct = ct + ", "@ + "rate_limit_rps"@;
    comma_list_push(c, "max_retries"@);
    c = c.push("max_retries"@);
    ct = ct + ", "@ + "max_retries"@;
    comma_list_push(c, "retry_backoff"@);
    c = c.push("retry_backoff"@);
    ct = ct + ", "@ + "retry_backoff"@;
    comma_list_push(c, "base_delay_ms"@);
    c = c.push("base_delay_ms"@);
    ct = ct + ", "@ + "base_delay_ms"@;
    comma_list_push(c, "max_delay_ms"@);
    c = c.push("max_delay_ms"@);
    ct = ct + ", "@ + "max_delay_ms"@;
    assert(c =~= new_queue_columns());
    assert(ct =~= "name, max_concurrency, rate_limit_rps, max_retries, retry_backoff, base_delay_ms, max_delay_ms"@);
}

proof fn lemma_new_queue_placeholders()
    ensures
        comma_list(placeholders(7)) == "?1, ?2, ?3, ?4, ?5, ?6, ?7"@,
{
    reveal_strlit(", ");
    reveal_strlit("?1, ?2, ?3, ?4, ?5, ?6, ?7");
    assert(nat_digits(1) =~= seq!['1']);
    assert(nat_digits(2) =~= seq!['2']);
    assert(nat_digits(3) =~= seq!['3']);
    assert(nat_digits(4) =~= seq!['4']);
    assert(nat_digits(5) =~= seq!['5']);
    assert(nat_digits(6) =~= seq!['6']);
    assert(nat_digits(7) =~= seq!['7']);
    let vals = placeholders(7);
    assert(vals[0] =~= seq!['?', '1']);
    assert(vals[1] =~= seq!['?', '2']);
    assert(vals[2] =~= seq!['?', '3']);
    assert(vals[3] =~= seq!['?', '4']);
    assert(vals[4] =~= seq!['?', '5']);
    assert(vals[5] =~= seq!['?', '6']);
    assert(vals[6] =~= seq!['?', '7']);
    let mut v: Seq<Seq<char>> = seq![seq!['?', '1']];
    let mut vt: Seq<char> = seq!['?', '1'];
    comma_list_push(v, seq!['?', '2']);
    v = v.push(seq!['?', '2']);
    vt = vt + ", "@ + seq!['?', '2'];
    comma_list_push(v, seq!['?', '3']);
    v = v.push(seq!['?', '3']);
    vt = vt + ", "@ + seq!['?', '3'];
    comma_list_push(v, seq!['?', '4']);
    v = v.push(seq!['?', '4']);
    vt = vt + ", "@ + seq!['?', '4'];
    comma_list_push(v, seq!['?', '5']);
    v = v.push(seq!['?', '5']);
    vt = vt + ", "@ + seq!['?', '5'];
    comma_list_push(v, seq!['?', '6']);
    v = v.push(seq!['?', '6']);
    vt = vt + ", "@ + seq!['?', '6'];
    comma_list_push(v, seq!['?', '7']);
    v = v.push(seq!['?', '7']);
    vt = vt + ", "@ + seq!['?', '7'];
    assert(v =~= vals);
    assert(vt =~= "?1, ?2, ?3, ?4, ?5, ?6, ?7"@);
}

/// A queue's INSERT names the fields of `NewQueue` in declaration order,
/// the k-th bound to placeholder `?k`.
pub proof fn queue_insert_binds_fields_in_order()
    ensures
        insert_queue_sql() == insert_statement("queues"@, new_queue_columns(), placeholders(7)),
{
    lemma_new_queue_column_list();
    lemma_new_queue_placeholders();
    reveal_strlit("INSERT INTO ");
    reveal_strlit("queues");
    reveal_strlit(" (");
    reveal_strlit(") VALUES (");
    reveal_strlit(") RETURNING *");
    reveal_strlit("name, max_concurrency, rate_limit_rps, max_retries, retry_backoff, base_delay_ms, max_delay_ms");
    reveal_strlit("?1, ?2, ?3, ?4, ?5, ?6, ?7");
    reveal_strlit("INSERT INTO queues (name, max_concurrency, rate_limit_rps, max_retries, retry_backoff, base_delay_ms, max_delay_ms) VALUES (?1, ?2, ?3, ?4, ?5, ?6, ?7) RETURNING *");
    assert(insert_queue_sql() =~= insert_statement("queues"@, new_queue_columns(), placeholders(7)));
}

/// Resolves a new queue: a name is required; concurrency 5, retries 3,
/// "exponential" backoff, base delay 1000 ms and maximum delay 300000 ms
/// unless given; no rate limit unless given.
pub fn plan_create_queue(req: CreateQueueRequest) -> (r: Result<NewQueue, ApiError>)
    ensures
        req.name@.len() == 0 ==> (r matches Err(e) && is_bad_request(e, "Queue name is required"@)),
        req.name@.len() > 0 ==> (r matches Ok(q) && {
            &&& q.name == req.name
            &&& q.max_concurrency == value_or(req.max_concurrency, 5)
            &&& q.rate_limit_rps == req.rate_limit_rps
            &&& q.max_retries == value_or(req.max_retries, 3)
            &&& q.retry_backoff@ == text_or(req.retry_backoff, "exponential"@)
            &&& q.base_delay_ms == value_or(req.base_delay_ms, 1000)
            &&& q.max_delay_ms == value_or(req.max_delay_ms, 300000)
            &&& q.insert_sql@ == insert_queue_sql()
        }),
{
    if req.name.as_str().unicode_len() == 0 {
        return Err(ApiError::BadRequest(String::from_str("Queue name is required")));
    }
    Ok(NewQueue {
        name: req.name,
        max_concurrency: match req.max_concurrency { Some(v) => v, None => 5 },
        rate_limit_rps: req.rate_limit_rps,
        max_retries: match req.max_retries { Some(v) => v, None => 3 },
        retry_backoff: match req.retry_backoff { Some(v) => v, None => String::from_str("exponential") },
        base_delay_ms: match req.base_delay_ms { Some(v) => v, None => 1000 },
        max_delay_ms: match req.max_delay_ms { Some(v) => v, None => 300000 },
        insert_sql: String::from_str(
            "INSERT INTO queues (name, max_concurrency, rate_limit_rps, max_retries, retry_backoff, base_delay_ms, max_delay_ms) VALUES (?1, ?2, ?3, ?4, ?5, ?6, ?7) RETURNING *",
        ),
    })
}

/// The answer when inserting queue `name` failed. `db_message` is the
/// database's own message when the failure came from the database, and
/// `error_text` the failure's text. A uniqueness violation means the queue
/// exists already; anything else is a database error.
pub fn create_queue_failure(name: &str, db_message: Option<String>, error_text: String) -> (e: ApiError)
    ensures
        match db_message {
            Some(m) if seq_contains(m@, "UNIQUE"@) => is_conflict(e, "Queue '"@ + name@ + "' already exists"@),
            _ => e == ApiError::Database(error_text),
        },
{
    match db_message {
        Some(m) => {
            if contains(m.as_str(), "UNIQUE") {
                ApiError::Conflict(concat3("Queue '", name, "' already exists"))
            } else {
                ApiError::Database(error_text)
            }
        },
        None => ApiError::Database(error_text),
    }
}

/// A value for an UPDATE placeholder. `Real` carries the bit pattern of a
/// floating-point value.
#[derive(Debug, Clone, PartialEq)]
pub enum BindValue {
    Int(i32),
    Real(u64),
    Text(String),
}

/// An UPDATE statement whose placeholder `?1` takes the key (queue name or
/// schedule id) and `?2`.. take `binds` in order.
#[derive(Debug, Clone, PartialEq)]
pub struct UpdatePlan {
    pub sql: String,
    pub binds: Vec<BindValue>,
}

/// One optional column change: its column and value when present.
pub open spec fn opt_col<T>(o: Option<T>, col: Seq<char>) -> Seq<Seq<char>> {
    if o is Some { seq![col] } else { Seq::empty() }
}

/// The columns a queue update changes, in the order the statement sets them.
pub open spec fn queue_update_columns(req: UpdateQueueRequest) -> Seq<Seq<char>> {
    opt_col(req.max_concurrency, "max_concurrency"@)
        + opt_col(req.rate_limit_rps, "rate_limit_rps"@)
        + opt_col(req.max_retries, "max_retries"@)
        + opt_col(req.retry_backoff, "retry_backoff"@)
        + opt_col(req.base_delay_ms, "base_delay_ms"@)
        + opt_col(req.max_delay_ms, "max_delay_ms"@)
}

/// An optional value as a placeholder value: none, or one.
pub open spec fn opt_bind(o: Option<BindValue>) -> Seq<BindValue> {
    match o {
        Some(b) => seq![b],
        None => Seq::empty(),
    }
}

pub open spec fn int_bind(o: Option<i32>) -> Option<BindValue> {
    match o {
        Some(v) => Some(BindValue::Int(v)),
        None => None,
    }
}

pub open spec fn real_bind(o: Option<u64>) -> Option<BindValue> {
    match o {
        Some(v) => Some(BindValue::Real(v)),
        None => None,
    }
}

pub open spec fn text_bind(o: Option<String>) -> Option<BindValue> {
    match o {
        Some(v) => Some(BindValue::Text(v)),
        None => None,
    }
}

/// An optional integer as a placeholder value.
pub fn int_change(o: Option<i32>) -> (r: Option<BindValue>)
    ensures
        r == int_bind(o),
{
    match o {
        Some(v) => Some(BindValue::Int(v)),
        None => None,
    }
}

/// An optional floating-point bit pattern as a placeholder value.
pub fn real_change(o: Option<u64>) -> (r: Option<BindValue>)
    ensures
        r == real_bind(o),
{
    match o {
        Some(v) => Some(BindValue::Real(v)),
        None => None,
    }
}

/// An optional text as a placeholder value.
pub fn text_change(o: Option<String>) -> (r: Option<BindValue>)
    ensures
        r == text_bind(o),
{
    match o {
        Some(v) => Some(BindValue::Text(v)),
        None => None,
    }
}

/// Records an optional column change: the column and its value when present.
pub fn add_change(cols: &mut Vec<&'static str>, binds: &mut Vec<BindValue>, col: &'static str, v: Option<BindValue>)
    ensures
        final(cols)@.map_values(|c: &str| c@) == old(cols)@.map_values(|c: &str| c@) + opt_col(v, col@),
        final(binds)@ == old(binds)@ + opt_bind(v),
{
    match v {
        Some(b) => {
            cols.push(col);
            binds.push(b);
        },
        None => {},
    }
    assert(cols@.map_values(|c: &str| c@) =~= old(cols)@.map_values(|c: &str| c@) + opt_col(v, col@));
    assert(binds@ =~= old(binds)@ + opt_bind(v));
}

/// The values of a queue update, in the order of its columns.
pub open spec fn queue_update_binds(req: UpdateQueueRequest) -> Seq<BindValue> {
    opt_bind(int_bind(req.max_concurrency))
        + opt_bind(real_bind(req.rate_limit_rps))
        + opt_bind(int_bind(req.max_retries))
        + opt_bind(text_bind(req.retry_backoff))
        + opt_bind(int_bind(req.base_delay_ms))
        + opt_bind(int_bind(req.max_delay_ms))
}

/// An UPDATE of `table` keyed by `key`, setting `cols` and the update time.
pub open spec fn update_sql(table: Seq<char>, key: Seq<char>, cols: Seq<Seq<char>>) -> Seq<char> {
    "UPDATE "@ + table + " SET "@ + assignments(cols, 2) + ", updated_at = "@ + now_expr() + " WHERE "@ + key
        + " = ?1 RETURNING *"@
}

/// The UPDATE statement for `cols` (non-empty) of `table` keyed by `key`.
pub fn build_update_sql(table: &str, key: &str, cols: &Vec<&'static str>) -> (r: String)
    requires
        cols@.len() + 2 <= u64::MAX,
    ensures
        r@ == update_sql(table@, key@, cols@.map_values(|c: &str| c@)),
{
    let list = assignment_list(cols, 2);
    let mut s = String::from_str("UPDATE ");
    s.append(table);
    s.append(" SET ");
    s.append(list.as_str());
    s.append(", updated_at = ");
    s.append("strftime('%Y-%m-%dT%H:%M:%f', 'now')");
    s.append(" WHERE ");
    s.append(key);
    s.append(" = ?1 RETURNING *");
    s
}

/// Plans a partial queue update: only the given settings change, each
/// taking the next placeholder from `?2` on; the update time is always
/// refreshed. A request that changes nothing is a bad request.
#[verifier::spinoff_prover]
pub fn plan_update_queue(req: UpdateQueueRequest) -> (r: Result<UpdatePlan, ApiError>)
    ensures
        queue_update_columns(req).len() == 0 ==> (r matches Err(e) && is_bad_request(e, "No fields to update"@)),
        queue_update_columns(req).len() > 0 ==> (r matches Ok(p) && {
            &&& p.sql@ == update_sql("queues"@, "name"@, queue_update_columns(req))
            &&& p.binds@ == queue_update_binds(req)
        }),
{
    let ghost g = req;
    let mut cols: Vec<&'static str> = Vec::new();
    let mut binds: Vec<BindValue> = Vec::new();
    add_change(&mut cols, &mut binds, "max_concurrency", int_change(req.max_concurrency));
    add_change(&mut cols, &mut binds, "rate_limit_rps", real_change(req.rate_limit_rps));
    add_change(&mut cols, &mut binds, "max_retries", int_change(req.max_retries));
    add_change(&mut cols, &mut binds, "retry_backoff", text_change(req.retry_backoff));
    add_change(&mut cols, &mut binds, "base_delay_ms", int_change(req.base_delay_ms));
    add_change(&mut cols, &mut binds, "max_delay_ms", int_change(req.max_delay_ms));
    assert(cols@.map_values(|c: &str| c@) =~= queue_update_columns(g));
    assert(binds@ =~= queue_update_binds(g));
    if cols.len() == 0 {
        return Err(ApiError::BadRequest(String::from_str("No fields to update")));
    }
    let sql = build_update_sql("queues", "name", &cols);
    Ok(UpdatePlan { sql, binds })
}

/// Every setting a queue update changes gets exactly one value, bound in
/// the order the statement sets them.
pub proof fn queue_update_binds_match_columns(req: UpdateQueueRequest)
    ensures
        queue_update_binds(req).len() == queue_update_columns(req).len(),
{
}

/// The update sets column `col` to `v`: some position of the column list
/// names `col` and the value bound at that position is `v`.
pub open spec fn sets_column(cols: Seq<Seq<char>>, binds: Seq<BindValue>, col: Seq<char>, v: BindValue) -> bool {
    exists|k: int| #![trigger cols[k]] 0 <= k < cols.len() && k < binds.len() && cols[k] == col && binds[k] == v
}

/// What a change to column `col` with optional value `o` means for an
/// update: a given value sets the column to it, no value leaves the column
/// out.
pub open spec fn applies_change(cols: Seq<Seq<char>>, binds: Seq<BindValue>, col: Seq<char>, o: Option<BindValue>) -> bool {
    match o {
        Some(v) => sets_column(cols, binds, col, v),
        None => !cols.contains(col),
    }
}

/// A single optional change applies itself.
pub(crate) proof fn lemma_change_alone(col: Seq<char>, o: Option<BindValue>)
    ensures
        applies_change(opt_col(o, col), opt_bind(o), col, o),
{
    if o is Some {
        assert(opt_col(o, col)[0] == col);
    } else {
        assert(!opt_col(o, col).contains(col));
    }
}

/// Changes to other columns appended after a change keep it applying.
pub(crate) proof fn lemma_change_then(
    cols: Seq<Seq<char>>,
    binds: Seq<BindValue>,
    col: Seq<char>,
    o: Option<BindValue>,
    xc: Seq<Seq<char>>,
    xb: Seq<BindValue>,
)
    requires
        applies_change(cols, binds, col, o),
        cols.len() == binds.len(),
        !xc.contains(col),
    ensures
        applies_change(cols + xc, binds + xb, col, o),
{
    match o {
        Some(v) => {
            let k = choose|k: int| #![trigger cols[k]] 0 <= k < cols.len() && k < binds.len() && cols[k] == col && binds[k] == v;
            assert((cols + xc)[k] == col);
            assert((binds + xb)[k] == v);
        },
        None => {
            lemma_concat_lacks(cols, xc, col);
        },
    }
}

/// Changes to other columns put before a change keep it applying.
pub(crate) proof fn lemma_change_after(
    xc: Seq<Seq<char>>,
    xb: Seq<BindValue>,
    cols: Seq<Seq<char>>,
    binds: Seq<BindValue>,
    col: Seq<char>,
    o: Option<BindValue>,
)
    requires
        applies_change(cols, binds, col, o),
        xc.len() == xb.len(),
        !xc.contains(col),
    ensures
        applies_change(xc + cols, xb + binds, col, o),
{
    match o {
        Some(v) => {
            let k = choose|k: int| #![trigger cols[k]] 0 <= k < cols.len() && k < binds.len() && cols[k] == col && binds[k] == v;
            let j = xc.len() + k;
            assert((xc + cols)[j] == col);
            assert((xb + binds)[j] == v);
        },
        None => {
            lemma_concat_lacks(xc, cols, col);
        },
    }
}

pub(crate) proof fn lemma_opt_col_lacks<T>(o: Option<T>, c: Seq<char>, x: Seq<char>)
    requires
        c != x,
    ensures
        !opt_col(o, c).contains(x),
{
    if opt_col(o, c).contains(x) {
        let k = choose|k: int| 0 <= k < opt_col(o, c).len() && opt_col(o, c)[k] == x;
        assert(opt_col(o, c)[k] == c);
    }
}

pub(crate) proof fn lemma_concat_lacks(a: Seq<Seq<char>>, b: Seq<Seq<char>>, x: Seq<char>)
    requires
        !a.contains(x),
        !b.contains(x),
    ensures
        !(a + b).contains(x),
{
    if (a + b).contains(x) {
        let k = choose|k: int| 0 <= k < (a + b).len() && (a + b)[k] == x;
        if k < a.len() {
            assert(a[k] == x);
        } else {
            assert(b[k - a.len()] == x);
        }
    }
}

/// The column names a queue update may set, each distinct from the others.
proof fn lemma_queue_column_names_distinct()
    ensures
        "max_concurrency"@ != "rate_limit_rps"@,
        "max_concurrency"@ != "max_retries"@,
        "max_concurrency"@ != "retry_backoff"@,
        "max_concurrency"@ != "base_delay_ms"@,
        "max_concurrency"@ != "max_delay_ms"@,
        "rate_limit_rps"@ != "max_retries"@,
        "rate_limit_rps"@ != "retry_backoff"@,
        "rate_limit_rps"@ != "base_delay_ms"@,
        "rate_limit_rps"@ != "max_delay_ms"@,
        "max_retries"@ != "retry_backoff"@,
        "max_retries"@ != "base_delay_ms"@,
        "max_retries"@ != "max_delay_ms"@,
        "retry_backoff"@ != "base_delay_ms"@,
        "retry_backoff"@ != "max_delay_ms"@,
        "base_delay_ms"@ != "max_delay_ms"@,
{
    reveal_strlit("max_concurrency");
    reveal_strlit("rate_limit_rps");
    reveal_strlit("max_retries");
    reveal_strlit("retry_backoff");
    reveal_strlit("base_delay_ms");
    reveal_strlit("max_delay_ms");
    assert("max_concurrency"@.len() == 15 && "rate_limit_rps"@.len() == 14 && "max_retries"@.len() == 11 && "retry_backoff"@.len() == 13 && "base_delay_ms"@.len() == 13 && "max_delay_ms"@.len() == 12);
    assert("retry_backoff"@[0] != "base_delay_ms"@[0]);
}

proof fn lemma_queue_sets_max_concurrency(req: UpdateQueueRequest)
    ensures
        applies_change(queue_update_columns(req), queue_update_binds(req), "max_concurrency"@, int_bind(req.max_concurrency)),
{
    lemma_queue_column_names_distinct();
    assert(queue_update_columns(req) == (((((opt_col(int_bind(req.max_concurrency), "max_concurrency"@) + opt_col(real_bind(req.rate_limit_rps), "rate_limit_rps"@)) + opt_col(int_bind(req.max_retries), "max_retries"@)) + opt_col(text_bind(req.retry_backoff), "retry_backoff"@)) + opt_col(int_bind(req.base_delay_ms), "base_delay_ms"@)) + opt_col(int_bind(req.max_delay_ms), "max_delay_ms"@)));
    lemma_change_alone("max_concurrency"@, int_bind(req.max_concurrency));
    lemma_opt_col_lacks(real_bind(req.rate_limit_rps), "rate_limit_rps"@, "max_concurrency"@);
    lemma_change_then(opt_col(int_bind(req.max_concurrency), "max_concurrency"@), opt_bind(int_bind(req.max_concurrency)), "max_concurrency"@, int_bind(req.max_concurrency), opt_col(real_bind(req.rate_limit_rps), "rate_limit_rps"@), opt_bind(real_bind(req.rate_limit_rps)));
    lemma_opt_col_lacks(int_bind(req.max_retries), "max_retries"@, "max_concurrency"@);
    lemma_change_then((opt_col(int_bind(req.max_concurrency), "max_concurrency"@) + opt_col(real_bind(req.rate_limit_rps), "rate_limit_rps"@)), (opt_bind(int_bind(req.max_concurrency)) + opt_bind(real_bind(req.rate_limit_rps))), "max_concurrency"@, int_bind(req.max_concurrency), opt_col(int_bind(req.max_retries), "max_retries"@), opt_bind(int_bind(req.max_retries)));
    lemma_opt_col_lacks(text_bind(req.retry_backoff), "retry_backoff"@, "max_concurrency"@);
    lemma_change_then(((opt_col(int_bind(req.max_concurrency), "max_concurrency"@) + opt_col(real_bind(req.rate_limit_rps), "rate_limit_rps"@)) + opt_col(int_bind(req.max_retries), "max_retries"@)), ((opt_bind(int_bind(req.max_concurrency)) + opt_bind(real_bind(req.rate_limit_rps))) + opt_bind(int_bind(req.max_retries))), "max_concurrency"@, int_bind(req.max_concurrency), opt_col(text_bind(req.retry_backoff), "retry_backoff"@), opt_bind(text_bind(req.retry_backoff)));
    lemma_opt_col_lacks(int_bind(req.base_delay_ms), "base_delay_ms"@, "max_concurrency"@);
    lemma_change_then((((opt_col(int_bind(req.max_concurrency), "max_concurrency"@) + opt_col(real_bind(req.rate_limit_rps), "rate_limit_rps"@)) + opt_col(int_bind(req.max_retries), "max_retries"@)) + opt_col(text_bind(req.retry_backoff), "retry_backoff"@)), (((opt_bind(int_bind(req.max_concurrency)) + opt_bind(real_bind(req.rate_limit_rps))) + opt_bind(int_bind(req.max_retries))) + opt_bind(text_bind(req.retry_backoff))), "max_concurrency"@, int_bind(req.max_concurrency), opt_col(int_bind(req.base_delay_ms), "base_delay_ms"@), opt_bind(int_bind(req.base_delay_ms)));
    lemma_opt_col_lacks(int_bind(req.max_delay_ms), "max_delay_ms"@, "max_concurrency"@);
    lemma_change_then(((((opt_col(int_bind(req.max_concurrency), "max_concurrency"@) + opt_col(real_bind(req.rate_limit_rps), "rate_limit_rps"@)) + opt_col(int_bind(req.max_retries), "max_retries"@)) + opt_col(text_bind(req.retry_backoff), "retry_backoff"@)) + opt_col(int_bind(req.base_delay_ms), "base_delay_ms"@)), ((((opt_bind(int_bind(req.max_concurrency)) + opt_bind(real_bind(req.rate_limit_rps))) + opt_bind(int_bind(req.max_retries))) + opt_bind(text_bind(req.retry_backoff))) + opt_bind(int_bind(req.base_delay_ms))), "max_concurrency"@, int_bind(req.max_concurrency), opt_col(int_bind(req.max_delay_ms), "max_delay_ms"@), opt_bind(int_bind(req.max_delay_ms)));
}

proof fn lemma_queue_sets_rate_limit_rps(req: UpdateQueueRequest)
    ensures
        applies_change(queue_update_columns(req), queue_update_binds(req), "rate_limit_rps"@, real_bind(req.rate_limit_rps)),
{
    lemma_queue_column_names_distinct();
    assert(queue_update_columns(req) == (((((opt_col(int_bind(req.max_concurrency), "max_concurrency"@) + opt_col(real_bind(req.rate_limit_rps), "rate_limit_rps"@)) + opt_col(int_bind(req.max_retries), "max_retries"@)) + opt_col(text_bind(req.retry_backoff), "retry_backoff"@)) + opt_col(int_bind(req.base_delay_ms), "base_delay_ms"@)) + opt_col(int_bind(req.max_delay_ms), "max_delay_ms"@)));
    lemma_change_alone("rate_limit_rps"@, real_bind(req.rate_limit_rps));
    lemma_opt_col_lacks(int_bind(req.max_concurrency), "max_concurrency"@, "rate_limit_rps"@);
    lemma_change_after(opt_col(int_bind(req.max_concurrency), "max_concurrency"@), opt_bind(int_bind(req.max_concurrency)), opt_col(real_bind(req.rate_limit_rps), "rate_limit_rps"@), opt_bind(real_bind(req.rate_limit_rps)), "rate_limit_rps"@, real_bind(req.rate_limit_rps));
    lemma_opt_col_lacks(int_bind(req.max_retries), "max_retries"@, "rate_limit_rps"@);
    lemma_change_then((opt_col(int_bind(req.max_concurrency), "max_concurrency"@) + opt_col(real_bind(req.rate_limit_rps), "rate_limit_rps"@)), (opt_bind(int_bind(req.max_concurrency)) + opt_bind(real_bind(req.rate_limit_rps))), "rate_limit_rps"@, real_bind(req.rate_limit_rps), opt_col(int_bind(req.max_retries), "max_retries"@), opt_bind(int_bind(req.max_retries)));
    lemma_opt_col_lacks(text_bind(req.retry_backoff), "retry_backoff"@, "rate_limit_rps"@);
    lemma_change_then(((opt_col(int_bind(req.max_concurrency), "max_concurrency"@) + opt_col(real_bind(req.rate_limit_rps), "rate_limit_rps"@)) + opt_col(int_bind(req.max_retries), "max_retries"@)), ((opt_bind(int_bind(req.max_concurrency)) + opt_bind(real_bind(req.rate_limit_rps))) + opt_bind(int_bind(req.max_retries))), "rate_limit_rps"@, real_bind(req.rate_limit_rps), opt_col(text_bind(req.retry_backoff), "retry_backoff"@), opt_bind(text_bind(req.retry_backoff)));
    lemma_opt_col_lacks(int_bind(req.base_delay_ms), "base_delay_ms"@, "rate_limit_rps"@);
    lemma_change_then((((opt_col(int_bind(req.max_concurrency), "max_concurrency"@) + opt_col(real_bind(req.rate_limit_rps), "rate_limit_rps"@)) + opt_col(int_bind(req.max_retries), "max_retries"@)) + opt_col(text_bind(req.retry_backoff), "retry_backoff"@)), (((opt_bind(int_bind(req.max_concurrency)) + opt_bind(real_bind(req.rate_limit_rps))) + opt_bind(int_bind(req.max_retries))) + opt_bind(text_bind(req.retry_backoff))), "rate_limit_rps"@, real_bind(req.rate_limit_rps), opt_col(int_bind(req.base_delay_ms), "base_delay_ms"@), opt_bind(int_bind(req.base_delay_ms)));
    lemma_opt_col_lacks(int_bind(req.max_delay_ms), "max_delay_ms"@, "rate_limit_rps"@);
    lemma_change_then(((((opt_col(int_bind(req.max_concurrency), "max_concurrency"@) + opt_col(real_bind(req.rate_limit_rps), "rate_limit_rps"@)) + opt_col(int_bind(req.max_retries), "max_retries"@)) + opt_col(text_bind(req.retry_backoff), "retry_backoff"@)) + opt_col(int_bind(req.base_delay_ms), "base_delay_ms"@)), ((((opt_bind(int_bind(req.max_concurrency)) + opt_bind(real_bind(req.rate_limit_rps))) + opt_bind(int_bind(req.max_retries))) + opt_bind(text_bind(req.retry_backoff))) + opt_bind(int_bind(req.base_delay_ms))), "rate_limit_rps"@, real_bind(req.rate_limit_rps), opt_col(int_bind(req.max_delay_ms), "max_delay_ms"@), opt_bind(int_bind(req.max_delay_ms)));
}

proof fn lemma_queue_sets_max_retries(req: UpdateQueueRequest)
    ensures
        applies_change(queue_update_columns(req), queue_update_binds(req), "max_retries"@, int_bind(req.max_retries)),
{
    lemma_queue_column_names_distinct();
    assert(queue_update_columns(req) == (((((opt_col(int_bind(req.max_concurrency), "max_concurrency"@) + opt_col(real_bind(req.rate_limit_rps), "rate_limit_rps"@)) + opt_col(int_bind(req.max_retries), "max_retries"@)) + opt_col(text_bind(req.retry_backoff), "retry_backoff"@)) + opt_col(int_bind(req.base_delay_ms), "base_delay_ms"@)) + opt_col(int_bind(req.max_delay_ms), "max_delay_ms"@)));
    lemma_change_alone("max_retries"@, int_bind(req.max_retries));
    lemma_opt_col_lacks(int_bind(req.max_concurrency), "max_concurrency"@, "max_retries"@);
    lemma_opt_col_lacks(real_bind(req.rate_limit_rps), "rate_limit_rps"@, "max_retries"@);
    lemma_concat_lacks(opt_col(int_bind(req.max_concurrency), "max_concurrency"@), opt_col(real_bind(req.rate_limit_rps), "rate_limit_rps"@), "max_retries"@);
    lemma_change_after((opt_col(int_bind(req.max_concurrency), "max_concurrency"@) + opt_col(real_bind(req.rate_limit_rps), "rate_limit_rps"@)), (opt_bind(int_bind(req.max_concurrency)) + opt_bind(real_bind(req.rate_limit_rps))), opt_col(int_bind(req.max_retries), "max_retries"@), opt_bind(int_bind(req.max_retries)), "max_retries"@, int_bind(req.max_retries));
    lemma_opt_col_lacks(text_bind(req.retry_backoff), "retry_backoff"@, "max_retries"@);
    lemma_change_then(((opt_col(int_bind(req.max_concurrency), "max_concurrency"@) + opt_col(real_bind(req.rate_limit_rps), "rate_limit_rps"@)) + opt_col(int_bind(req.max_retries), "max_retries"@)), ((opt_bind(int_bind(req.max_concurrency)) + opt_bind(real_bind(req.rate_limit_rps))) + opt_bind(int_bind(req.max_retries))), "max_retries"@, int_bind(req.max_retries), opt_col(text_bind(req.retry_backoff), "retry_backoff"@), opt_bind(text_bind(req.retry_backoff)));
    lemma_opt_col_lacks(int_bind(req.base_delay_ms), "base_delay_ms"@, "max_retries"@);
    lemma_change_then((((opt_col(int_bind(req.max_concurrency), "max_concurrency"@) + opt_col(real_bind(req.rate_limit_rps), "rate_limit_rps"@)) + opt_col(int_bind(req.max_retries), "max_retries"@)) + opt_col(text_bind(req.retry_backoff), "retry_backoff"@)), (((opt_bind(int_bind(req.max_concurrency)) + opt_bind(real_bind(req.rate_limit_rps))) + opt_bind(int_bind(req.max_retries))) + opt_bind(text_bind(req.retry_backoff))), "max_retries"@, int_bind(req.max_retries), opt_col(int_bind(req.base_delay_ms), "base_delay_ms"@), opt_bind(int_bind(req.base_delay_ms)));
    lemma_opt_col_lacks(int_bind(req.max_delay_ms), "max_delay_ms"@, "max_retries"@);
    lemma_change_then(((((opt_col(int_bind(req.max_concurrency), "max_concurrency"@) + opt_col(real_bind(req.rate_limit_rps), "rate_limit_rps"@)) + opt_col(int_bind(req.max_retries), "max_retries"@)) + opt_col(text_bind(req.retry_backoff), "retry_backoff"@)) + opt_col(int_bind(req.base_delay_ms), "base_delay_ms"@)), ((((opt_bind(int_bind(req.max_concurrency)) + opt_bind(real_bind(req.rate_limit_rps))) + opt_bind(int_bind(req.max_retries))) + opt_bind(text_bind(req.retry_backoff))) + opt_bind(int_bind(req.base_delay_ms))), "max_retries"@, int_bind(req.max_retries), opt_col(int_bind(req.max_delay_ms), "max_delay_ms"@), opt_bind(int_bind(req.max_delay_ms)));
}

proof fn lemma_queue_sets_retry_backoff(req: UpdateQueueRequest)
    ensures
        applies_change(queue_update_columns(req), queue_update_binds(req), "retry_backoff"@, text_bind(req.retry_backoff)),
{
    lemma_queue_column_names_distinct();
    assert(queue_update_columns(req) == (((((opt_col(int_bind(req.max_concurrency), "max_concurrency"@) + opt_col(real_bind(req.rate_limit_rps), "rate_limit_rps"@)) + opt_col(int_bind(req.max_retries), "max_retries"@)) + opt_col(text_bind(req.retry_backoff), "retry_backoff"@)) + opt_col(int_bind(req.base_delay_ms), "base_delay_ms"@)) + opt_col(int_bind(req.max_delay_ms), "max_delay_ms"@)));
    lemma_change_alone("retry_backoff"@, text_bind(req.retry_backoff));
    lemma_opt_col_lacks(int_bind(req.max_concurrency), "max_concurrency"@, "retry_backoff"@);
    lemma_opt_col_lacks(real_bind(req.rate_limit_rps), "rate_limit_rps"@, "retry_backoff"@);
    lemma_concat_lacks(opt_col(int_bind(req.max_concurrency), "max_concurrency"@), opt_col(real_bind(req.rate_limit_rps), "rate_limit_rps"@), "retry_backoff"@);
    lemma_opt_col_lacks(int_bind(req.max_retries), "max_retries"@, "retry_backoff"@);
    lemma_concat_lacks((opt_col(int_bind(req.max_concurrency), "max_concurrency"@) + opt_col(real_bind(req.rate_limit_rps), "rate_limit_rps"@)), opt_col(int_bind(req.max_retries), "max_retries"@), "retry_backoff"@);
    lemma_change_after(((opt_col(int_bind(req.max_concurrency), "max_concurrency"@) + opt_col(real_bind(req.rate_limit_rps), "rate_limit_rps"@)) + opt_col(int_bind(req.max_retries), "max_retries"@)), ((opt_bind(int_bind(req.max_concurrency)) + opt_bind(real_bind(req.rate_limit_rps))) + opt_bind(int_bind(req.max_retries))), opt_col(text_bind(req.retry_backoff), "retry_backoff"@), opt_bind(text_bind(req.retry_backoff)), "retry_backoff"@, text_bind(req.retry_backoff));
    lemma_opt_col_lacks(int_bind(req.base_delay_ms), "base_delay_ms"@, "retry_backoff"@);
    lemma_change_then((((opt_col(int_bind(req.max_concurrency), "max_concurrency"@) + opt_col(real_bind(req.rate_limit_rps), "rate_limit_rps"@)) + opt_col(int_bind(req.max_retries), "max_retries"@)) + opt_col(text_bind(req.retry_backoff), "retry_backoff"@)), (((opt_bind(int_bind(req.max_concurrency)) + opt_bind(real_bind(req.rate_limit_rps))) + opt_bind(int_bind(req.max_retries))) + opt_bind(text_bind(req.retry_backoff))), "retry_backoff"@, text_bind(req.retry_backoff), opt_col(int_bind(req.base_delay_ms), "base_delay_ms"@), opt_bind(int_bind(req.base_delay_ms)));
    lemma_opt_col_lacks(int_bind(req.max_delay_ms), "max_delay_ms"@, "retry_backoff"@);
    lemma_change_then(((((opt_col(int_bind(req.max_concurrency), "max_concurrency"@) + opt_col(real_bind(req.rate_limit_rps), "rate_limit_rps"@)) + opt_col(int_bind(req.max_retries), "max_retries"@)) + opt_col(text_bind(req.retry_backoff), "retry_backoff"@)) + opt_col(int_bind(req.base_delay_ms), "base_delay_ms"@)), ((((opt_bind(int_bind(req.max_concurrency)) + opt_bind(real_bind(req.rate_limit_rps))) + opt_bind(int_bind(req.max_retries))) + opt_bind(text_bind(req.retry_backoff))) + opt_bind(int_bind(req.base_delay_ms))), "retry_backoff"@, text_bind(req.retry_backoff), opt_col(int_bind(req.max_delay_ms), "max_delay_ms"@), opt_bind(int_bind(req.max_delay_ms)));
}

proof fn lemma_queue_sets_base_delay_ms(req: UpdateQueueRequest)
    ensures
        applies_change(queue_update_columns(req), queue_update_binds(req), "base_delay_ms"@, int_bind(req.base_delay_ms)),
{
    lemma_queue_column_names_distinct();
    assert(queue_update_columns(req) == (((((opt_col(int_bind(req.max_concurrency), "max_concurrency"@) + opt_col(real_bind(req.rate_limit_rps), "rate_limit_rps"@)) + opt_col(int_bind(req.max_retries), "max_retries"@)) + opt_col(text_bind(req.retry_backoff), "retry_backoff"@)) + opt_col(int_bind(req.base_delay_ms), "base_delay_ms"@)) + opt_col(int_bind(req.max_delay_ms), "max_delay_ms"@)));
    lemma_change_alone("base_delay_ms"@, int_bind(req.base_delay_ms));
    lemma_opt_col_lacks(int_bind(req.max_concurrency), "max_concurrency"@, "base_delay_ms"@);
    lemma_opt_col_lacks(real_bind(req.rate_limit_rps), "rate_limit_rps"@, "base_delay_ms"@);
    lemma_concat_lacks(opt_col(int_bind(req.max_concurrency), "max_concurrency"@), opt_col(real_bind(req.rate_limit_rps), "rate_limit_rps"@), "base_delay_ms"@);
    lemma_opt_col_lacks(int_bind(req.max_retries), "max_retries"@, "base_delay_ms"@);
    lemma_concat_lacks((opt_col(int_bind(req.max_concurrency), "max_concurrency"@) + opt_col(real_bind(req.rate_limit_rps), "rate_limit_rps"@)), opt_col(int_bind(req.max_retries), "max_retries"@), "base_delay_ms"@);
    lemma_opt_col_lacks(text_bind(req.retry_backoff), "retry_backoff"@, "base_delay_ms"@);
    lemma_concat_lacks(((opt_col(int_bind(req.max_concurrency), "max_concurrency"@) + opt_col(real_bind(req.rate_limit_rps), "rate_limit_rps"@)) + opt_col(int_bind(req.max_retries), "max_retries"@)), opt_col(text_bind(req.retry_backoff), "retry_backoff"@), "base_delay_ms"@);
    lemma_change_after((((opt_col(int_bind(req.max_concurrency), "max_concurrency"@) + opt_col(real_bind(req.rate_limit_rps), "rate_limit_rps"@)) + opt_col(int_bind(req.max_retries), "max_retries"@)) + opt_col(text_bind(req.retry_backoff), "retry_backoff"@)), (((opt_bind(int_bind(req.max_concurrency)) + opt_bind(real_bind(req.rate_limit_rps))) + opt_bind(int_bind(req.max_retries))) + opt_bind(text_bind(req.retry_backoff))), opt_col(int_bind(req.base_delay_ms), "base_delay_ms"@), opt_bind(int_bind(req.base_delay_ms)), "base_delay_ms"@, int_bind(req.base_delay_ms));
    lemma_opt_col_lacks(int_bind(req.max_delay_ms), "max_delay_ms"@, "base_delay_ms"@);
    lemma_change_then(((((opt_col(int_bind(req.max_concurrency), "max_concurrency"@) + opt_col(real_bind(req.rate_limit_rps), "rate_limit_rps"@)) + opt_col(int_bind(req.max_retries), "max_retries"@)) + opt_col(text_bind(req.retry_backoff), "retry_backoff"@)) + opt_col(int_bind(req.base_delay_ms), "base_delay_ms"@)), ((((opt_bind(int_bind(req.max_concurrency)) + opt_bind(real_bind(req.rate_limit_rps))) + opt_bind(int_bind(req.max_retries))) + opt_bind(text_bind(req.retry_backoff))) + opt_bind(int_bind(req.base_delay_ms))), "base_delay_ms"@, int_bind(req.base_delay_ms), opt_col(int_bind(req.max_delay_ms), "max_delay_ms"@), opt_bind(int_bind(req.max_delay_ms)));
}

proof fn lemma_queue_sets_max_delay_ms(req: UpdateQueueRequest)
    ensures
        applies_change(queue_update_columns(req), queue_update_binds(req), "max_delay_ms"@, int_bind(req.max_delay_ms)),
{
    lemma_queue_column_names_distinct();
    assert(queue_update_columns(req) == (((((opt_col(int_bind(req.max_concurrency), "max_concurrency"@) + opt_col(real_bind(req.rate_limit_rps), "rate_limit_rps"@)) + opt_col(int_bind(req.max_retries), "max_retries"@)) + opt_col(text_bind(req.retry_backoff), "retry_backoff"@)) + opt_col(int_bind(req.base_delay_ms), "base_delay_ms"@)) + opt_col(int_bind(req.max_delay_ms), "max_delay_ms"@)));
    lemma_change_alone("max_delay_ms"@, int_bind(req.max_delay_ms));
    lemma_opt_col_lacks(int_bind(req.max_concurrency), "max_concurrency"@, "max_delay_ms"@);
    lemma_opt_col_lacks(real_bind(req.rate_limit_rps), "rate_limit_rps"@, "max_delay_ms"@);
    lemma_concat_lacks(opt_col(int_bind(req.max_concurrency), "max_concurrency"@), opt_col(real_bind(req.rate_limit_rps), "rate_limit_rps"@), "max_delay_ms"@);
    lemma_opt_col_lacks(int_bind(req.max_retries), "max_retries"@, "max_delay_ms"@);
    lemma_concat_lacks((opt_col(int_bind(req.max_concurrency), "max_concurrency"@) + opt_col(real_bind(req.rate_limit_rps), "rate_limit_rps"@)), opt_col(int_bind(req.max_retries), "max_retries"@), "max_delay_ms"@);
    lemma_opt_col_lacks(text_bind(req.retry_backoff), "retry_backoff"@, "max_delay_ms"@);
    lemma_concat_lacks(((opt_col(int_bind(req.max_concurrency), "max_concurrency"@) + opt_col(real_bind(req.rate_limit_rps), "rate_limit_rps"@)) + opt_col(int_bind(req.max_retries), "max_retries"@)), opt_col(text_bind(req.retry_backoff), "retry_backoff"@), "max_delay_ms"@);
    lemma_opt_col_lacks(int_bind(req.base_delay_ms), "base_delay_ms"@, "max_delay_ms"@);
    lemma_concat_lacks((((opt_col(int_bind(req.max_concurrency), "max_concurrency"@) + opt_col(real_bind(req.rate_limit_rps), "rate_limit_rps"@)) + opt_col(int_bind(req.max_retries), "max_retries"@)) + opt_col(text_bind(req.retry_backoff), "retry_backoff"@)), opt_col(int_bind(req.base_delay_ms), "base_delay_ms"@), "max_delay_ms"@);
    lemma_change_after(((((opt_col(int_bind(req.max_concurrency), "max_concurrency"@) + opt_col(real_bind(req.rate_limit_rps), "rate_limit_rps"@)) + opt_col(int_bind(req.max_retries), "max_retries"@)) + opt_col(text_bind(req.retry_backoff), "retry_backoff"@)) + opt_col(int_bind(req.base_delay_ms), "base_delay_ms"@)), ((((opt_bind(int_bind(req.max_concurrency)) + opt_bind(real_bind(req.rate_limit_rps))) + opt_bind(int_bind(req.max_retries))) + opt_bind(text_bind(req.retry_backoff))) + opt_bind(int_bind(req.base_delay_ms))), opt_col(int_bind(req.max_delay_ms), "max_delay_ms"@), opt_bind(int_bind(req.max_delay_ms)), "max_delay_ms"@, int_bind(req.max_delay_ms));
}

/// Each setting given in a queue update is written to the column of the same
/// name, bound to the given value, and a setting not given leaves its column
/// out of the statement.
pub proof fn queue_update_sets_named_columns(req: UpdateQueueRequest)
    ensures
        ({
            let cols = queue_update_columns(req);
            let binds = queue_update_binds(req);
            &&& applies_change(cols, binds, "max_concurrency"@, int_bind(req.max_concurrency))
            &&& applies_change(cols, binds, "rate_limit_rps"@, real_bind(req.rate_limit_rps))
            &&& applies_change(cols, binds, "max_retries"@, int_bind(req.max_retries))
            &&& applies_change(cols, binds, "retry_backoff"@, text_bind(req.retry_backoff))
            &&& applies_change(cols, binds, "base_delay_ms"@, int_bind(req.base_delay_ms))
            &&& applies_change(cols, binds, "max_delay_ms"@, int_bind(req.max_delay_ms))
        }),
{
    lemma_queue_sets_max_concurrency(req);
    lemma_queue_sets_rate_limit_rps(req);
    lemma_queue_sets_max_retries(req);
    lemma_queue_sets_retry_backoff(req);
    lemma_queue_sets_base_delay_ms(req);
    lemma_queue_sets_max_delay_ms(req);
}

/// A queue with active jobs cannot be deleted.
pub fn check_queue_deletable(name: &str, active_jobs: i64) -> (r: Result<(), ApiError>)
    ensures
        active_jobs > 0 ==> (r matches Err(e) && is_conflict(
            e,
            "Cannot delete queue '"@ + name@ + "': "@ + int_decimal(active_jobs as int) + " active jobs remain"@,
        )),
        active_jobs <= 0 ==> r is Ok,
{
    if active_jobs > 0 {
        let count = i64_decimal(active_jobs);
        let mut m = concat3("Cannot delete queue '", name, "': ");
        m.append(count.as_str());
        m.append(" active jobs remain");
        return Err(ApiError::Conflict(m));
    }
    Ok(())
}

/// A DELETE that removed no row means the queue did not exist.
pub fn queue_deleted_outcome(name: &str, rows_deleted: u64) -> (r: Result<(), ApiError>)
    ensures
        rows_deleted == 0 ==> (r matches Err(e) && is_not_found(e, "Queue '"@ + name@ + "' not found"@)),
        rows_deleted > 0 ==> r is Ok,
{
    if rows_deleted == 0 {
        return Err(queue_not_found(name));
    }
    Ok(())
}

} // verus!
