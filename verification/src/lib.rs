//! mininq: the decision logic of an SQLite-backed webhook job runner.
//!
//! The library holds the parts of the job runner that compute: configuration
//! resolution, request validation and SQL statement planning for the HTTP API,
//! retry backoff, per-queue token-bucket rate limiting, webhook result
//! classification and the outcome of each job execution. The HTTP server,
//! database access and background task loops live in the application crate.

pub mod api;
pub mod config;
pub mod cron_support;
pub mod ids;
pub mod models;
pub mod sqlbuild;
pub mod sqltime;
pub mod text;
pub mod worker;
