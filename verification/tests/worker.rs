use mininq::config::DefaultsConfig;
use mininq::models::job::Job;
use mininq::models::schedule::Schedule;
use mininq::worker::engine::{
    allowed_queues, claim_order, failure_update_with, handle_result, poll_queues_query, update_statement, JobUpdate,
    QueueInfo,
};
use mininq::worker::executor::{classify_response, classify_send_error, webhook_request, WebhookResult};
use mininq::worker::rate_limiter::RateLimiter;
use mininq::worker::scheduler::{plan_schedule_firing, scheduled_job};

fn job(attempt: i32, max_retries: i32) -> Job {
    Job {
        id: "j1".into(),
        queue_name: "emails".into(),
        status: "running".into(),
        priority: 0,
        payload: "{}".into(),
        callback_url: "https://example.com/hook".into(),
        visible_at: "2024-01-15T10:00:00.000".into(),
        attempt,
        max_retries,
        started_at: None,
        completed_at: None,
        worker_id: Some("w".into()),
        retry_backoff: None,
        base_delay_ms: None,
        max_delay_ms: None,
        last_error: None,
        result: None,
        idempotency_key: None,
        timeout_ms: 30000,
        created_at: "2024-01-15T10:00:00.000".into(),
        updated_at: "2024-01-15T10:00:00.000".into(),
    }
}

#[test]
fn responses_are_classified_by_status() {
    assert_eq!(classify_response(200, "200 OK", "done".into()), WebhookResult::Success(Some("done".into())));
    assert_eq!(classify_response(204, "204 No Content", String::new()), WebhookResult::Success(None));
    assert_eq!(
        classify_response(404, "404 Not Found", "nope".into()),
        WebhookResult::PermanentFailure("HTTP 404 Not Found: nope".into())
    );
    assert_eq!(
        classify_response(503, "503 Service Unavailable", "".into()),
        WebhookResult::TransientFailure("HTTP 503 Service Unavailable: ".into())
    );
    assert_eq!(
        classify_response(302, "302 Found", "x".into()),
        WebhookResult::TransientFailure("HTTP 302 Found: x".into())
    );
}

#[test]
fn send_errors_are_classified() {
    assert_eq!(classify_send_error(true, true, "t".into()), WebhookResult::Timeout);
    assert_eq!(classify_send_error(false, true, "refused".into()), WebhookResult::ConnectionError("refused".into()));
    assert_eq!(classify_send_error(false, false, "other".into()), WebhookResult::TransientFailure("other".into()));
}

#[test]
fn webhook_request_headers() {
    let r = webhook_request(&job(2, 3));
    assert_eq!(r.url, "https://example.com/hook");
    assert_eq!(r.body, "{}");
    assert_eq!(r.timeout_ms, 30000);
    let h: Vec<(&str, &str)> = r.headers.iter().map(|(k, v)| (k.as_str(), v.as_str())).collect();
    assert_eq!(
        h,
        vec![
            ("X-Mininq-Job-Id", "j1"),
            ("X-Mininq-Attempt", "2"),
            ("X-Mininq-Queue", "emails"),
            ("Content-Type", "application/json")
        ]
    );
}

#[test]
fn results_decide_the_job_update() {
    let d = DefaultsConfig::default();
    assert_eq!(
        handle_result(&job(1, 3), &d, WebhookResult::Success(Some("ok".into()))),
        JobUpdate::Complete { result: Some("ok".into()) }
    );
    assert_eq!(
        handle_result(&job(1, 3), &d, WebhookResult::PermanentFailure("HTTP 400".into())),
        JobUpdate::DeadLetter { error: "HTTP 400".into() }
    );
    assert_eq!(
        handle_result(&job(3, 3), &d, WebhookResult::Timeout),
        JobUpdate::DeadLetter { error: "Webhook timeout".into() }
    );
    match handle_result(&job(2, 3), &d, WebhookResult::ConnectionError("refused".into())) {
        JobUpdate::Retry { error, delay_ms } => {
            assert_eq!(error, "refused");
            assert!((1400..=2600).contains(&delay_ms));
        }
        other => panic!("unexpected {other:?}"),
    }
}

#[test]
fn failures_use_job_settings_before_defaults() {
    let d = DefaultsConfig::default();
    let mut j = job(3, 5);
    j.retry_backoff = Some("linear".into());
    j.base_delay_ms = Some(100);
    assert_eq!(
        failure_update_with(&j, &d, "e".into(), 0),
        JobUpdate::Retry { error: "e".into(), delay_ms: 300 }
    );
    j.max_delay_ms = Some(250);
    assert_eq!(failure_update_with(&j, &d, "e".into(), 0), JobUpdate::Retry { error: "e".into(), delay_ms: 250 });
    assert_eq!(
        failure_update_with(&job(2, 3), &d, "e".into(), 100_000),
        JobUpdate::Retry { error: "e".into(), delay_ms: 2200 }
    );
}

#[test]
fn update_statements() {
    assert_eq!(
        update_statement(&JobUpdate::Complete { result: None }),
        "UPDATE jobs SET status = 'completed', completed_at = strftime('%Y-%m-%dT%H:%M:%f', 'now'), result = ?2, updated_at = strftime('%Y-%m-%dT%H:%M:%f', 'now') WHERE id = ?1"
    );
    assert_eq!(
        update_statement(&JobUpdate::Retry { error: "e".into(), delay_ms: 2500 }),
        "UPDATE jobs SET status = 'pending', visible_at = strftime('%Y-%m-%dT%H:%M:%f', 'now', '+2.5 seconds'), last_error = ?2, worker_id = NULL, started_at = NULL, updated_at = strftime('%Y-%m-%dT%H:%M:%f', 'now') WHERE id = ?1"
    );
    assert!(update_statement(&JobUpdate::DeadLetter { error: "e".into() }).starts_with("UPDATE jobs SET status = 'dead'"));
}

#[test]
fn poll_query_lists_configured_queues() {
    let select = "SELECT q.name, q.rate_limit_rps, q.max_concurrency, (SELECT COUNT(*) FROM jobs j WHERE j.queue_name = q.name AND j.status = 'running') AS running FROM queues q WHERE q.paused = 0";
    assert_eq!(poll_queues_query(&vec![]), select);
    assert_eq!(
        poll_queues_query(&vec!["a".into(), "b".into(), "c".into()]),
        format!("{select} AND q.name IN (?1,?2,?3)")
    );
}

#[test]
fn rate_limited_queues_are_skipped() {
    let mut rl = RateLimiter::new();
    let qs = || {
        vec![
            QueueInfo { name: "a".into(), rate_limit_micro_rps: Some(1_000), max_concurrency: 5, running: 0 },
            QueueInfo { name: "b".into(), rate_limit_micro_rps: None, max_concurrency: 5, running: 4 },
        ]
    };
    assert_eq!(allowed_queues(&mut rl, qs()), vec!["a".to_string(), "b".to_string()]);
    // "a" allows 0.001 requests per second: its single token is spent.
    assert_eq!(allowed_queues(&mut rl, qs()), vec!["b".to_string()]);
    let mut order = claim_order(&mut RateLimiter::new(), qs());
    order.sort();
    assert_eq!(order, vec!["a".to_string(), "b".to_string()]);
}

#[test]
fn queues_at_their_concurrency_limit_are_skipped() {
    let mut rl = RateLimiter::new();
    let qs = vec![
        QueueInfo { name: "full".into(), rate_limit_micro_rps: None, max_concurrency: 2, running: 2 },
        QueueInfo { name: "over".into(), rate_limit_micro_rps: None, max_concurrency: 1, running: 3 },
        QueueInfo { name: "free".into(), rate_limit_micro_rps: None, max_concurrency: 2, running: 1 },
    ];
    assert_eq!(allowed_queues(&mut rl, qs.clone()), vec!["free".to_string()]);
    // A queue at its limit does not spend a rate-limit token either.
    let limited = vec![QueueInfo { name: "r".into(), rate_limit_micro_rps: Some(1_000), max_concurrency: 1, running: 1 }];
    assert!(allowed_queues(&mut rl, limited).is_empty());
    let freed = vec![QueueInfo { name: "r".into(), rate_limit_micro_rps: Some(1_000), max_concurrency: 1, running: 0 }];
    assert_eq!(allowed_queues(&mut rl, freed), vec!["r".to_string()]);
    assert!(claim_order(&mut rl, vec![qs[0].clone()]).is_empty());
}

#[test]
fn scheduled_jobs_copy_the_schedule() {
    let s = Schedule {
        id: "s1".into(),
        queue_name: "maintenance".into(),
        cron_expression: "0 */5 * * * *".into(),
        callback_url: "https://example.com/cleanup".into(),
        payload: "{\"task\":\"x\"}".into(),
        max_retries: 4,
        timeout_ms: 1000,
        enabled: 1,
        last_run_at: None,
        next_run_at: Some("2024-01-15T10:05:00.000".into()),
        created_at: "2024-01-15T10:00:00.000".into(),
        updated_at: "2024-01-15T10:00:00.000".into(),
    };
    let j = scheduled_job(&s);
    assert_eq!(j.queue_name, "maintenance");
    assert_eq!(j.payload, "{\"task\":\"x\"}");
    assert_eq!(j.callback_url, "https://example.com/cleanup");
    assert_eq!(j.max_retries, 4);
    assert_eq!(j.timeout_ms, 1000);
    assert_eq!(j.id.len(), 36);
}

fn due_schedule(cron_expression: &str) -> Schedule {
    Schedule {
        id: "s2".into(),
        queue_name: "reports".into(),
        cron_expression: cron_expression.into(),
        callback_url: "https://example.com/report".into(),
        payload: "{}".into(),
        max_retries: 2,
        timeout_ms: 5000,
        enabled: 1,
        last_run_at: None,
        next_run_at: Some("2024-01-15T10:05:00.000".into()),
        created_at: "2024-01-15T10:00:00.000".into(),
        updated_at: "2024-01-15T10:00:00.000".into(),
    }
}

#[test]
fn firing_a_schedule_moves_it_to_its_next_run() {
    let s = due_schedule("0 0 0 1 1 * 2099");
    let f = plan_schedule_firing(&s, "2024-01-15T10:05:01.250").unwrap();
    assert_eq!(f.schedule_id, "s2");
    assert_eq!(f.fired_at, "2024-01-15T10:05:01.250");
    assert_eq!(f.next_run_at, "2099-01-01T00:00:00.000");
    assert_eq!(f.expected_next_run_at, Some("2024-01-15T10:05:00.000".to_string()));
    assert_eq!(f.job.queue_name, "reports");
    assert_eq!(f.job.callback_url, "https://example.com/report");
    assert_eq!(f.job.max_retries, 2);
    assert_eq!(f.job.timeout_ms, 5000);
    assert_eq!(f.job.id.len(), 36);
}

#[test]
fn firing_a_schedule_with_a_broken_expression_is_skipped() {
    let s = due_schedule("not a cron");
    let e = plan_schedule_firing(&s, "2024-01-15T10:05:01.250").unwrap_err();
    assert!(e.message().starts_with("Invalid cron expression: "));
    let past = due_schedule("0 0 0 1 1 * 2000");
    let e = plan_schedule_firing(&past, "2024-01-15T10:05:01.250").unwrap_err();
    assert_eq!(e.message(), "Cron expression has no upcoming runs");
}
