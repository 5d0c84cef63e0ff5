//! The metrics API: the answer assembled from the database's counts.

use vstd::prelude::*;

verus! {

/// System metrics.
#[derive(Debug, Clone, PartialEq)]
pub struct MetricsResponse {
    pub uptime_secs: u64,
    pub version: String,
    pub jobs: JobMetrics,
    pub queues: Vec<QueueMetric>,
    pub schedules: ScheduleMetrics,
}

/// Job counts by status.
#[derive(Debug, Clone, PartialEq)]
pub struct JobMetrics {
    pub total: i64,
    pub pending: i64,
    pub running: i64,
    pub completed: i64,
    pub dead: i64,
}

/// One queue's depth (pending jobs) and jobs in flight (running).
#[derive(Debug, Clone, PartialEq)]
pub struct QueueMetric {
    pub name: String,
    pub paused: bool,
    pub depth: i64,
    pub in_flight: i64,
}

/// Schedule counts.
#[derive(Debug, Clone, PartialEq)]
pub struct ScheduleMetrics {
    pub total: i64,
    pub enabled: i64,
}

/// A queue's row in the metrics query; `paused` as stored (non-zero: paused).
#[derive(Debug, Clone, PartialEq)]
pub struct QueueMetricRow {
    pub name: String,
    pub paused: i32,
    pub depth: i64,
    pub in_flight: i64,
}

/// The metric of a queue row.
pub open spec fn metric_of(r: QueueMetricRow) -> QueueMetric {
    QueueMetric { name: r.name, paused: r.paused != 0, depth: r.depth, in_flight: r.in_flight }
}

/// The metrics answer: the uptime, the version, the job counts, one metric
/// per queue row in the rows' order, and the schedule counts.
pub fn build_metrics(
    uptime_secs: u64,
    version: String,
    jobs: JobMetrics,
    rows: &Vec<QueueMetricRow>,
    schedules: ScheduleMetrics,
) -> (r: MetricsResponse)
    ensures
        r.uptime_secs == uptime_secs,
        r.version == version,
        r.jobs == jobs,
        r.schedules == schedules,
        r.queues@ == rows@.map_values(|row: QueueMetricRow| metric_of(row)),
{
    let mut queues: Vec<QueueMetric> = Vec::new();
    let mut i: usize = 0;
    while i < rows.len()
        invariant
            i <= rows@.len(),
            queues@ == rows@.take(i as int).map_values(|row: QueueMetricRow| metric_of(row)),
        decreases rows@.len() - i,
    {
        let row = &rows[i];
        queues.push(QueueMetric {
            name: row.name.clone(),
            paused: row.paused != 0,
            depth: row.depth,
            in_flight: row.in_flight,
        });
        assert(rows@.take(i + 1).drop_last() =~= rows@.take(i as int));
        assert(queues@ =~= rows@.take(i + 1).map_values(|row: QueueMetricRow| metric_of(row)));
        i = i + 1;
    }
    assert(rows@.take(rows@.len() as int) =~= rows@);
    MetricsResponse { uptime_secs, version, jobs, queues, schedules }
}

} // verus!
