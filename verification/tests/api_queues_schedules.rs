use std::str::FromStr;
use chrono::{TimeZone, Utc};
use mininq::cron_support::{format_timestamp, CronInstant};
use mininq::api::error::ApiError;
use mininq::api::metrics::{build_metrics, JobMetrics, QueueMetricRow, ScheduleMetrics};
use mininq::api::queues::{
    check_queue_deletable, create_queue_failure, plan_create_queue, plan_update_queue, queue_deleted_outcome,
    queue_not_found, queue_stats_from_row, BindValue,
};
use mininq::api::schedules::{
    compute_next_run, next_run_from_outcome, plan_create_schedule, plan_create_schedule_with, plan_schedule_update_with, plan_update_schedule, schedule_not_found,
};
use mininq::models::queue::{CreateQueueRequest, UpdateQueueRequest};
use mininq::models::schedule::{CreateScheduleRequest, UpdateScheduleRequest};

fn no_queue_changes() -> UpdateQueueRequest {
    UpdateQueueRequest {
        max_concurrency: None,
        rate_limit_rps: None,
        max_retries: None,
        retry_backoff: None,
        base_delay_ms: None,
        max_delay_ms: None,
    }
}

#[test]
fn queue_creation_defaults() {
    let q = plan_create_queue(CreateQueueRequest {
        name: "webhooks".into(),
        max_concurrency: Some(20),
        rate_limit_rps: Some(10.0f64.to_bits()),
        max_retries: None,
        retry_backoff: Some("linear".into()),
        base_delay_ms: None,
        max_delay_ms: None,
    })
    .unwrap();
    assert_eq!(q.name, "webhooks");
    assert_eq!(q.max_concurrency, 20);
    assert_eq!(q.rate_limit_rps, Some(10.0f64.to_bits()));
    assert_eq!(q.max_retries, 3);
    assert_eq!(q.retry_backoff, "linear");
    assert_eq!(q.base_delay_ms, 1000);
    assert_eq!(q.max_delay_ms, 300000);

    let empty = CreateQueueRequest {
        name: String::new(),
        max_concurrency: None,
        rate_limit_rps: None,
        max_retries: None,
        retry_backoff: None,
        base_delay_ms: None,
        max_delay_ms: None,
    };
    assert_eq!(plan_create_queue(empty), Err(ApiError::BadRequest("Queue name is required".into())));
}

#[test]
fn duplicate_queue_is_a_conflict() {
    assert_eq!(
        create_queue_failure("webhooks", Some("UNIQUE constraint failed: queues.name".into()), "db".into()),
        ApiError::Conflict("Queue 'webhooks' already exists".into())
    );
    assert_eq!(
        create_queue_failure("webhooks", Some("disk I/O error".into()), "disk I/O error".into()),
        ApiError::Database("disk I/O error".into())
    );
    assert_eq!(create_queue_failure("webhooks", None, "pool closed".into()), ApiError::Database("pool closed".into()));
}

#[test]
fn queue_update_sets_only_given_fields() {
    let mut r = no_queue_changes();
    r.rate_limit_rps = Some(5.0f64.to_bits());
    r.max_retries = Some(7);
    let p = plan_update_queue(r).unwrap();
    assert_eq!(
        p.sql,
        "UPDATE queues SET rate_limit_rps = ?2, max_retries = ?3, updated_at = strftime('%Y-%m-%dT%H:%M:%f', 'now') WHERE name = ?1 RETURNING *"
    );
    assert_eq!(p.binds, vec![BindValue::Real(5.0f64.to_bits()), BindValue::Int(7)]);
    assert_eq!(plan_update_queue(no_queue_changes()), Err(ApiError::BadRequest("No fields to update".into())));
}

#[test]
fn queue_deletion_answers() {
    assert_eq!(check_queue_deletable("q", 0), Ok(()));
    assert_eq!(
        check_queue_deletable("q", 3),
        Err(ApiError::Conflict("Cannot delete queue 'q': 3 active jobs remain".into()))
    );
    assert_eq!(queue_deleted_outcome("q", 1), Ok(()));
    assert_eq!(queue_deleted_outcome("q", 0), Err(ApiError::NotFound("Queue 'q' not found".into())));
    assert_eq!(queue_not_found("x"), ApiError::NotFound("Queue 'x' not found".into()));
}

#[test]
fn queue_stats_rows() {
    let s = queue_stats_from_row("default".into(), 5, 1, 12, 3, 150, 2);
    assert!(s.paused);
    assert_eq!(s.pending, 12);
    assert!(!queue_stats_from_row("default".into(), 5, 0, 0, 0, 0, 0).paused);
}

#[test]
fn next_run_of_cron_expressions() {
    let next = compute_next_run("0 */5 * * * *").unwrap();
    assert_eq!(next.len(), 23);
    assert!(next.ends_with(":00.000"));
    let minute: u32 = next[14..16].parse().unwrap();
    assert_eq!(minute % 5, 0);
    // A different expression gives a time its own schedule includes.
    let yearly = compute_next_run("0 0 0 1 1 * 2099").unwrap();
    assert_eq!(yearly, "2099-01-01T00:00:00.000");
    match compute_next_run("not a cron") {
        Err(ApiError::BadRequest(m)) => assert!(m.starts_with("Invalid cron expression: ")),
        other => panic!("unexpected {other:?}"),
    }
}

#[test]
fn schedule_creation() {
    let s = plan_create_schedule(CreateScheduleRequest {
        queue_name: Some("maintenance".into()),
        cron_expression: "0 */5 * * * *".into(),
        callback_url: "https://example.com/cleanup".into(),
        payload: Some("{\"task\":\"expire_sessions\"}".into()),
        max_retries: None,
        timeout_ms: None,
        enabled: None,
    })
    .unwrap();
    assert_eq!(s.queue_name, "maintenance");
    assert_eq!(s.max_retries, 3);
    assert_eq!(s.timeout_ms, 30000);
    assert_eq!(s.enabled, 1);
    assert_eq!(s.id.len(), 36);
    assert_eq!(s.next_run_at.len(), 23);
    assert!(s.next_run_at.ends_with(":00.000"));

    let bad_url = CreateScheduleRequest {
        queue_name: None,
        cron_expression: "0 * * * * *".into(),
        callback_url: "example.com".into(),
        payload: None,
        max_retries: None,
        timeout_ms: None,
        enabled: Some(false),
    };
    assert_eq!(
        plan_create_schedule(bad_url),
        Err(ApiError::BadRequest("callback_url must be an HTTP(S) URL".into()))
    );
}

#[test]
fn cron_rejection_carries_the_parser_text() {
    let detail = cron::Schedule::from_str("not a cron").unwrap_err().to_string();
    assert_eq!(
        compute_next_run("not a cron"),
        Err(ApiError::BadRequest(format!("Invalid cron expression: {detail}")))
    );
}

#[test]
fn planned_schedule_keeps_the_given_next_run() {
    let s = plan_create_schedule_with(
        CreateScheduleRequest {
            queue_name: None,
            cron_expression: "0 0 9 * * *".into(),
            callback_url: "http://example.com/x".into(),
            payload: None,
            max_retries: Some(1),
            timeout_ms: Some(5),
            enabled: Some(false),
        },
        "2024-01-16T09:00:00.000".into(),
    );
    assert_eq!(s.next_run_at, "2024-01-16T09:00:00.000");
    assert_eq!(s.queue_name, "default");
    assert_eq!(s.payload, "{}");
    assert_eq!(s.enabled, 0);
    assert_eq!(s.max_retries, 1);
    assert_eq!(s.timeout_ms, 5);
}

fn no_schedule_changes() -> UpdateScheduleRequest {
    UpdateScheduleRequest {
        queue_name: None,
        cron_expression: None,
        callback_url: None,
        payload: None,
        max_retries: None,
        timeout_ms: None,
        enabled: None,
    }
}

#[test]
fn schedule_update_recomputes_next_run() {
    let mut r = no_schedule_changes();
    r.cron_expression = Some("0 0 * * * *".into());
    r.enabled = Some(false);
    let p = plan_schedule_update_with(r, Some("2024-01-15T11:00:00.000".into())).unwrap();
    assert_eq!(
        p.sql,
        "UPDATE schedules SET cron_expression = ?2, next_run_at = ?3, enabled = ?4, updated_at = strftime('%Y-%m-%dT%H:%M:%f', 'now') WHERE id = ?1 RETURNING *"
    );
    assert_eq!(
        p.binds,
        vec![
            BindValue::Text("0 0 * * * *".into()),
            BindValue::Text("2024-01-15T11:00:00.000".into()),
            BindValue::Int(0)
        ]
    );
    assert_eq!(plan_update_schedule(no_schedule_changes()), Err(ApiError::BadRequest("No fields to update".into())));

    let mut bad = no_schedule_changes();
    bad.cron_expression = Some("every day".into());
    bad.max_retries = Some(1);
    assert!(matches!(plan_update_schedule(bad), Err(ApiError::BadRequest(m)) if m.starts_with("Invalid cron expression: ")));

    let mut ok = no_schedule_changes();
    ok.cron_expression = Some("0 0 9 * * *".into());
    let p = plan_update_schedule(ok).unwrap();
    assert_eq!(p.binds.len(), 2);
    assert_eq!(schedule_not_found("s1"), ApiError::NotFound("Schedule 's1' not found".into()));
}

#[test]
fn metrics_are_assembled_from_rows() {
    let rows = vec![
        QueueMetricRow { name: "default".into(), paused: 0, depth: 30, in_flight: 5 },
        QueueMetricRow { name: "emails".into(), paused: 1, depth: 12, in_flight: 3 },
    ];
    let m = build_metrics(
        3600,
        "0.1.0".into(),
        JobMetrics { total: 1500, pending: 42, running: 8, completed: 1420, dead: 30 },
        &rows,
        ScheduleMetrics { total: 5, enabled: 4 },
    );
    assert_eq!(m.uptime_secs, 3600);
    assert_eq!(m.queues.len(), 2);
    assert!(!m.queues[0].paused);
    assert!(m.queues[1].paused);
    assert_eq!(m.queues[1].depth, 12);
    assert_eq!(m.schedules.enabled, 4);
}

fn instant(year: i32, month: u32, day: u32, hour: u32, minute: u32, second: u32, nanosecond: u32) -> CronInstant {
    CronInstant { year, month, day, hour, minute, second, nanosecond }
}

#[test]
fn cron_outcomes_map_to_next_runs_and_errors() {
    assert_eq!(
        next_run_from_outcome(Ok(Some(instant(2024, 3, 7, 9, 5, 0, 0)))),
        Ok("2024-03-07T09:05:00.000".to_string())
    );
    assert_eq!(
        next_run_from_outcome(Ok(None)),
        Err(ApiError::BadRequest("Cron expression has no upcoming runs".into()))
    );
    assert_eq!(
        next_run_from_outcome(Err("Invalid expression: bad".into())),
        Err(ApiError::BadRequest("Invalid cron expression: Invalid expression: bad".into()))
    );
}

#[test]
fn timestamps_are_zero_padded_with_milliseconds() {
    assert_eq!(format_timestamp(instant(1970, 1, 1, 0, 0, 0, 0)), "1970-01-01T00:00:00.000");
    assert_eq!(format_timestamp(instant(2100, 12, 31, 23, 59, 59, 987_654_321)), "2100-12-31T23:59:59.987");
    // A leap second shows as second 60, as chrono writes it.
    assert_eq!(format_timestamp(instant(2016, 12, 31, 23, 59, 59, 1_250_000_000)), "2016-12-31T23:59:60.250");
}

#[test]
fn cron_timestamps_match_chrono_formatting() {
    let dt = Utc.with_ymd_and_hms(2031, 7, 4, 6, 3, 9).unwrap() + chrono::Duration::milliseconds(42);
    let i = instant(2031, 7, 4, 6, 3, 9, 42_000_000);
    assert_eq!(format_timestamp(i), dt.format("%Y-%m-%dT%H:%M:%S%.3f").to_string());
}
