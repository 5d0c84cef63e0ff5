use mininq::config::{load_config, Cli, Config, DefaultsConfig, LoggingConfig, ServerConfig, WorkerConfig};
use mininq::models::job::JobStatus;

#[test]
fn job_status_names_round_trip() {
    for s in [JobStatus::Pending, JobStatus::Running, JobStatus::Completed, JobStatus::Dead] {
        assert_eq!(JobStatus::from_str_value(s.as_str()), Some(s));
    }
    assert_eq!(JobStatus::Pending.as_str(), "pending");
    assert_eq!(JobStatus::Dead.as_str(), "dead");
    assert_eq!(JobStatus::from_str_value("Pending"), None);
    assert_eq!(JobStatus::from_str_value(""), None);
}

#[test]
fn defaults_are_the_documented_ones() {
    let c = Config::default();
    assert_eq!(c.server.host, "0.0.0.0");
    assert_eq!(c.server.port, 6390);
    assert_eq!(c.server.db_path, "mininq.db");
    assert_eq!(c.worker.concurrency, 10);
    assert_eq!(c.worker.poll_interval_ms, 500);
    assert!(c.worker.queues.is_empty());
    assert_eq!(c.worker.reaper_interval_secs, 30);
    assert_eq!(c.worker.scheduler_interval_secs, 15);
    assert_eq!(c.worker.retention_days, None);
    assert_eq!(c.worker.cleanup_interval_secs, 3600);
    assert_eq!(c.defaults.max_retries, 3);
    assert_eq!(c.defaults.retry_backoff, "exponential");
    assert_eq!(c.defaults.base_delay_ms, 1000);
    assert_eq!(c.defaults.max_delay_ms, 300000);
    assert_eq!(c.defaults.timeout_ms, 30000);
    assert_eq!(c.logging.level, "info");
    assert_eq!(c.logging.format, "json");
}

fn no_cli() -> Cli {
    Cli { config: "mininq.toml".to_string(), host: None, port: None, db_path: None, log_level: None }
}

#[test]
fn missing_file_gives_defaults() {
    assert_eq!(load_config(&no_cli(), None), Config::default());
}

#[test]
fn command_line_overrides_file() {
    let file = Config {
        server: ServerConfig { host: "127.0.0.1".into(), port: 8000, db_path: "x.db".into() },
        worker: WorkerConfig { concurrency: 2, ..WorkerConfig::default() },
        defaults: DefaultsConfig { max_retries: 9, ..DefaultsConfig::default() },
        logging: LoggingConfig { level: "debug".into(), format: "pretty".into() },
    };
    let kept = load_config(&no_cli(), Some(file.clone()));
    assert_eq!(kept, file);

    let cli = Cli {
        config: "c.toml".into(),
        host: Some("10.0.0.1".into()),
        port: Some(7000),
        db_path: None,
        log_level: Some("warn".into()),
    };
    let c = load_config(&cli, Some(file.clone()));
    assert_eq!(c.server.host, "10.0.0.1");
    assert_eq!(c.server.port, 7000);
    assert_eq!(c.server.db_path, "x.db");
    assert_eq!(c.logging.level, "warn");
    assert_eq!(c.logging.format, "pretty");
    assert_eq!(c.worker, file.worker);
    assert_eq!(c.defaults, file.defaults);
}
