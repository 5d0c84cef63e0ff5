//! Configuration: the settings, their documented defaults, and how command
//! line values override the configuration file.

use vstd::prelude::*;
use vstd::string::*;

verus! {

/// Command-line arguments (each may also come from its environment
/// variable). `config` is the path of the configuration file.
#[derive(Debug, Clone, PartialEq)]
pub struct Cli {
    pub config: String,
    pub host: Option<String>,
    pub port: Option<u16>,
    pub db_path: Option<String>,
    pub log_level: Option<String>,
}

/// The whole configuration.
#[derive(Debug, Clone, PartialEq)]
pub struct Config {
    pub server: ServerConfig,
    pub worker: WorkerConfig,
    pub defaults: DefaultsConfig,
    pub logging: LoggingConfig,
}

/// The `[server]` section.
#[derive(Debug, Clone, PartialEq)]
pub struct ServerConfig {
    pub host: String,
    pub port: u16,
    pub db_path: String,
}

/// The `[worker]` section.
#[derive(Debug, Clone, PartialEq)]
pub struct WorkerConfig {
    pub concurrency: usize,
    pub poll_interval_ms: u64,
    pub queues: Vec<String>,
    pub reaper_interval_secs: u64,
    pub scheduler_interval_secs: u64,
    pub retention_days: Option<u32>,
    pub cleanup_interval_secs: u64,
}

/// The `[defaults]` section: settings for jobs that give none of their own.
#[derive(Debug, Clone, PartialEq)]
pub struct DefaultsConfig {
    pub max_retries: i32,
    pub retry_backoff: String,
    pub base_delay_ms: i32,
    pub max_delay_ms: i32,
    pub timeout_ms: i32,
}

/// The `[logging]` section.
#[derive(Debug, Clone, PartialEq)]
pub struct LoggingConfig {
    pub level: String,
    pub format: String,
}

pub fn default_host() -> (r: String)
    ensures
        r@ == "0.0.0.0"@,
{
    String::from_str("0.0.0.0")
}

pub fn default_port() -> (r: u16)
    ensures
        r == 6390,
{
    6390
}

pub fn default_db_path() -> (r: String)
    ensures
        r@ == "mininq.db"@,
{
    String::from_str("mininq.db")
}

pub fn default_concurrency() -> (r: usize)
    ensures
        r == 10,
{
    10
}

pub fn default_poll_interval_ms() -> (r: u64)
    ensures
        r == 500,
{
    500
}

pub fn default_reaper_interval_secs() -> (r: u64)
    ensures
        r == 30,
{
    30
}

pub fn default_scheduler_interval_secs() -> (r: u64)
    ensures
        r == 15,
{
    15
}

pub fn default_cleanup_interval_secs() -> (r: u64)
    ensures
        r == 3600,
{
    3600
}

pub fn default_max_retries() -> (r: i32)
    ensures
        r == 3,
{
    3
}

pub fn default_retry_backoff() -> (r: String)
    ensures
        r@ == "exponential"@,
{
    String::from_str("exponential")
}

pub fn default_base_delay_ms() -> (r: i32)
    ensures
        r == 1000,
{
    1000
}

pub fn default_max_delay_ms() -> (r: i32)
    ensures
        r == 300000,
{
    300000
}

pub fn default_timeout_ms() -> (r: i32)
    ensures
        r == 30000,
{
    30000
}

pub fn default_log_level() -> (r: String)
    ensures
        r@ == "info"@,
{
    String::from_str("info")
}

pub fn default_log_format() -> (r: String)
    ensures
        r@ == "json"@,
{
    String::from_str("json")
}

/// The documented server defaults.
pub open spec fn is_default_server(c: ServerConfig) -> bool {
    c.host@ == "0.0.0.0"@ && c.port == 6390 && c.db_path@ == "mininq.db"@
}

/// The documented worker defaults: no queue list (all queues) and no
/// retention (jobs are kept forever).
pub open spec fn is_default_worker(c: WorkerConfig) -> bool {
    &&& c.concurrency == 10
    &&& c.poll_interval_ms == 500
    &&& c.queues@.len() == 0
    &&& c.reaper_interval_secs == 30
    &&& c.scheduler_interval_secs == 15
    &&& c.retention_days is None
    &&& c.cleanup_interval_secs == 3600
}

/// The documented job defaults.
pub open spec fn is_default_defaults(c: DefaultsConfig) -> bool {
    &&& c.max_retries == 3
    &&& c.retry_backoff@ == "exponential"@
    &&& c.base_delay_ms == 1000
    &&& c.max_delay_ms == 300000
    &&& c.timeout_ms == 30000
}

/// The documented logging defaults.
pub open spec fn is_default_logging(c: LoggingConfig) -> bool {
    c.level@ == "info"@ && c.format@ == "json"@
}

pub open spec fn is_default_config(c: Config) -> bool {
    &&& is_default_server(c.server)
    &&& is_default_worker(c.worker)
    &&& is_default_defaults(c.defaults)
    &&& is_default_logging(c.logging)
}

impl Default for ServerConfig {
    fn default() -> (r: Self)
        ensures
            is_default_server(r),
    {
        ServerConfig { host: default_host(), port: default_port(), db_path: default_db_path() }
    }
}

impl Default for WorkerConfig {
    fn default() -> (r: Self)
        ensures
            is_default_worker(r),
    {
        WorkerConfig {
            concurrency: default_concurrency(),
            poll_interval_ms: default_poll_interval_ms(),
            queues: Vec::new(),
            reaper_interval_secs: default_reaper_interval_secs(),
            scheduler_interval_secs: default_scheduler_interval_secs(),
            retention_days: None,
            cleanup_interval_secs: default_cleanup_interval_secs(),
        }
    }
}

impl Default for DefaultsConfig {
    fn default() -> (r: Self)
        ensures
            is_default_defaults(r),
    {
        DefaultsConfig {
            max_retries: default_max_retries(),
            retry_backoff: default_retry_backoff(),
            base_delay_ms: default_base_delay_ms(),
            max_delay_ms: default_max_delay_ms(),
            timeout_ms: default_timeout_ms(),
        }
    }
}

impl Default for LoggingConfig {
    fn default() -> (r: Self)
        ensures
            is_default_logging(r),
    {
        LoggingConfig { level: default_log_level(), format: default_log_format() }
    }
}

impl Default for Config {
    fn default() -> (r: Self)
        ensures
            is_default_config(r),
    {
        Config {
            server: ServerConfig::default(),
            worker: WorkerConfig::default(),
            defaults: DefaultsConfig::default(),
            logging: LoggingConfig::default(),
        }
    }
}

/// The value of an overridable setting: the command-line value when given,
/// else the file's value.
pub open spec fn overridden<T>(cli: Option<T>, file: T) -> T {
    match cli {
        Some(v) => v,
        None => file,
    }
}

/// What `load_config` returns for the command line `cli` over the base
/// configuration `base` (the file's, or the defaults when there is no file).
pub open spec fn loaded_from(r: Config, cli: Cli, base: Config) -> bool {
    &&& r.server.host@ == overridden(cli.host, base.server.host)@
    &&& r.server.port == overridden(cli.port, base.server.port)
    &&& r.server.db_path@ == overridden(cli.db_path, base.server.db_path)@
    &&& r.logging.level@ == overridden(cli.log_level, base.logging.level)@
    &&& r.logging.format == base.logging.format
    &&& r.worker == base.worker
    &&& r.defaults == base.defaults
}

/// Resolves the configuration: the file's configuration (`file`, when the
/// file exists and has been parsed) or else the defaults, with the host,
/// port, database path and log level given on the command line (or in the
/// environment) taking precedence.
pub fn load_config(cli: &Cli, file: Option<Config>) -> (r: Config)
    ensures
        match file {
            Some(c) => loaded_from(r, *cli, c),
            None => exists|d: Config| is_default_config(d) && loaded_from(r, *cli, d),
        },
{
    let ghost base: Config;
    let mut config = match file {
        Some(c) => {
            proof { base = c; }
            c
        },
        None => {
            let d = Config::default();
            proof { base = d; }
            d
        },
    };
    if let Some(host) = &cli.host {
        config.server.host = host.clone();
    }
    if let Some(port) = cli.port {
        config.server.port = port;
    }
    if let Some(db_path) = &cli.db_path {
        config.server.db_path = db_path.clone();
    }
    if let Some(level) = &cli.log_level {
        config.logging.level = level.clone();
    }
    assert(loaded_from(config, *cli, base));
    config
}

} // verus!
