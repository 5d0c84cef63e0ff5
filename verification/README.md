# mininq

An SQLite-backed webhook job runner: jobs POST to a callback URL, queues
have priorities, token-bucket rate limits and retry policies, and cron
schedules enqueue jobs on their own.

- `src/` is the library, verified with Verus: configuration and its
  defaults, request validation and SQL statement planning for the HTTP API,
  retry backoff with jitter, per-queue token buckets (rates in
  micro-requests per second, time in nanoseconds), webhook result
  classification, what each outcome does to a job, which queues may take
  a job (below their concurrency limit and within their rate) and what
  firing a due cron schedule changes.
- `app/` is the server around it: command line and configuration file,
  the axum routes, the sqlx database access, the reqwest webhook calls and
  the background loops (worker engine, reaper, scheduler, cleanup).
- `tests/` exercises the library on concrete values.
