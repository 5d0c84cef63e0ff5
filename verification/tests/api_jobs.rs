use mininq::api::error::ApiError;
use mininq::api::jobs::{cancel_outcome, job_not_found, plan_create_job, plan_list_jobs, retry_not_found, validate_callback_url};
use mininq::config::DefaultsConfig;
use mininq::models::job::{CreateJobRequest, ListJobsQuery};

fn req(url: &str) -> CreateJobRequest {
    CreateJobRequest {
        queue_name: None,
        priority: None,
        payload: None,
        callback_url: url.to_string(),
        max_retries: None,
        retry_backoff: None,
        base_delay_ms: None,
        max_delay_ms: None,
        idempotency_key: None,
        timeout_ms: None,
        delay_ms: None,
    }
}

#[test]
fn callback_urls_must_be_http() {
    assert_eq!(validate_callback_url(""), Err(ApiError::BadRequest("callback_url is required".into())));
    assert_eq!(
        validate_callback_url("ftp://x"),
        Err(ApiError::BadRequest("callback_url must be an HTTP(S) URL".into()))
    );
    assert_eq!(validate_callback_url("http://x"), Ok(()));
    assert_eq!(validate_callback_url("https://example.com/hook"), Ok(()));
}

#[test]
fn new_job_takes_defaults() {
    let defaults = DefaultsConfig::default();
    let job = plan_create_job(req("https://example.com/webhook"), &defaults).unwrap();
    assert_eq!(job.id.len(), 36);
    assert_eq!(job.queue_name, "default");
    assert_eq!(job.priority, 0);
    assert_eq!(job.payload, "{}");
    assert_eq!(job.max_retries, 3);
    assert_eq!(job.timeout_ms, 30000);
    assert_eq!(job.retry_backoff, None);
    assert_eq!(job.visible_at, "strftime('%Y-%m-%dT%H:%M:%f', 'now')");
    assert!(job.insert_sql.ends_with("?11, strftime('%Y-%m-%dT%H:%M:%f', 'now')) RETURNING *"));
}

#[test]
fn new_job_keeps_given_values_and_delays() {
    let defaults = DefaultsConfig::default();
    let mut r = req("https://example.com/webhook");
    r.queue_name = Some("emails".into());
    r.priority = Some(10);
    r.payload = Some("{\"to\":\"user@example.com\"}".into());
    r.max_retries = Some(5);
    r.idempotency_key = Some("welcome-user-123".into());
    r.delay_ms = Some(60000);
    let job = plan_create_job(r, &defaults).unwrap();
    assert_eq!(job.queue_name, "emails");
    assert_eq!(job.priority, 10);
    assert_eq!(job.payload, "{\"to\":\"user@example.com\"}");
    assert_eq!(job.max_retries, 5);
    assert_eq!(job.idempotency_key.as_deref(), Some("welcome-user-123"));
    assert_eq!(job.visible_at, "strftime('%Y-%m-%dT%H:%M:%f', 'now', '+60 seconds')");
}

#[test]
fn negative_delay_is_refused() {
    let mut r = req("https://example.com/webhook");
    r.delay_ms = Some(-1);
    assert_eq!(
        plan_create_job(r, &DefaultsConfig::default()),
        Err(ApiError::BadRequest("delay_ms must be non-negative".into()))
    );
}

#[test]
fn listing_applies_filters_and_paging() {
    let q = ListJobsQuery { queue: Some("emails".into()), status: Some("dead".into()), limit: Some(10), offset: None };
    let p = plan_list_jobs(&q);
    assert_eq!(
        p.sql,
        "SELECT * FROM jobs WHERE 1=1 AND queue_name = ?1 AND status = ?2 ORDER BY created_at DESC LIMIT 10 OFFSET 0"
    );
    assert_eq!(p.binds, vec!["emails".to_string(), "dead".to_string()]);

    let q = ListJobsQuery { queue: None, status: Some("pending".into()), limit: Some(5000), offset: Some(20) };
    let p = plan_list_jobs(&q);
    assert_eq!(p.sql, "SELECT * FROM jobs WHERE 1=1 AND status = ?1 ORDER BY created_at DESC LIMIT 1000 OFFSET 20");
    assert_eq!(p.limit, 1000);

    let p = plan_list_jobs(&ListJobsQuery { queue: None, status: None, limit: Some(-1), offset: None });
    assert_eq!(p.limit, 0);
    assert_eq!(p.sql, "SELECT * FROM jobs WHERE 1=1 ORDER BY created_at DESC LIMIT 0 OFFSET 0");

    let p = plan_list_jobs(&ListJobsQuery { queue: None, status: None, limit: None, offset: None });
    assert_eq!(p.sql, "SELECT * FROM jobs WHERE 1=1 ORDER BY created_at DESC LIMIT 50 OFFSET 0");
    assert!(p.binds.is_empty());
}

#[test]
fn cancelling_only_pending_jobs() {
    assert_eq!(cancel_outcome("j1", 1, None), Ok(()));
    assert_eq!(cancel_outcome("j1", 0, None), Err(ApiError::NotFound("Job j1 not found".into())));
    assert_eq!(
        cancel_outcome("j1", 0, Some("running".into())),
        Err(ApiError::Conflict("Cannot cancel job with status 'running'".into()))
    );
}

#[test]
fn not_found_messages() {
    assert_eq!(job_not_found("abc"), ApiError::NotFound("Job abc not found".into()));
    assert_eq!(retry_not_found("abc"), ApiError::NotFound("Job abc not found or not in 'dead' status".into()));
}

#[test]
fn error_status_codes() {
    assert_eq!(ApiError::BadRequest("x".into()).status_code(), 400);
    assert_eq!(ApiError::NotFound("x".into()).status_code(), 404);
    assert_eq!(ApiError::Conflict("x".into()).status_code(), 409);
    assert_eq!(ApiError::Database("x".into()).status_code(), 500);
    assert_eq!(ApiError::Conflict("busy".into()).message(), "busy");
}
