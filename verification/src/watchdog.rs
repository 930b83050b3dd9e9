//! Worker pool health: which pools look stuck, and how the worker reports
//! its health.
use vstd::prelude::*;

verus! {

/// Worker pool names that the watchdog monitors.
pub fn pool_names() -> (r: Vec<&'static str>)
    ensures
        r@.len() == 8,
        r@[0]@ == "crawl"@,
        r@[1]@ == "download"@,
        r@[2]@ == "color_extract"@,
        r@[3]@ == "upload"@,
        r@[4]@ == "accessibility_check"@,
        r@[5]@ == "discover"@,
        r@[6]@ == "refresh_pixiv_token"@,
        r@[7]@ == "cleanup"@,
{
    vec![
        "crawl",
        "download",
        "color_extract",
        "upload",
        "accessibility_check",
        "discover",
        "refresh_pixiv_token",
        "cleanup",
    ]
}

/// What one check finds about a pool.
#[derive(Debug, Clone, Copy, PartialEq, Eq, Structural)]
pub enum PoolCheck {
    /// No activity was ever recorded; nothing changes.
    NoActivity,
    /// Silent for longer than the stuck timeout: flagged as stuck.
    Stuck,
    /// Active recently: any stuck flag is cleared.
    Healthy,
}

/// The finding for a pool last active `since_last_activity` ago (`None` when
/// it never was): stuck only when strictly longer than `stuck_timeout`.
pub open spec fn pool_check(since_last_activity: Option<u128>, stuck_timeout: u128) -> PoolCheck {
    match since_last_activity {
        None => PoolCheck::NoActivity,
        Some(e) => if e > stuck_timeout {
            PoolCheck::Stuck
        } else {
            PoolCheck::Healthy
        },
    }
}

/// Classifies a pool from the time since its last activity (nanoseconds).
pub fn check_pool(since_last_activity: Option<u128>, stuck_timeout: u128) -> (r: PoolCheck)
    ensures
        r == pool_check(since_last_activity, stuck_timeout),
{
    match since_last_activity {
        None => PoolCheck::NoActivity,
        Some(e) => if e > stuck_timeout {
            PoolCheck::Stuck
        } else {
            PoolCheck::Healthy
        },
    }
}

/// Classifies every pool, in the order given.
pub fn check_all_pools(activity: &Vec<Option<u128>>, stuck_timeout: u128) -> (r: Vec<PoolCheck>)
    ensures
        r@.len() == activity@.len(),
        forall|i: int| 0 <= i < r@.len() ==> #[trigger] r@[i] == pool_check(activity@[i], stuck_timeout),
{
    let mut r: Vec<PoolCheck> = Vec::new();
    let mut i: usize = 0;
    while i < activity.len()
        invariant
            i <= activity.len(),
            r@.len() == i,
            forall|j: int| 0 <= j < i ==> #[trigger] r@[j] == pool_check(activity@[j], stuck_timeout),
        decreases activity.len() - i,
    {
        r.push(check_pool(activity[i], stuck_timeout));
        i += 1;
    }
    r
}

/// Task counts reported by the worker health endpoint.
#[derive(Debug)]
pub struct TaskCounts {
    pub running: i64,
    pub queued: i64,
    pub failed: i64,
}

/// The worker health report.
#[derive(Debug)]
pub struct WorkerHealthResponse {
    pub status: &'static str,
    pub uptime_secs: u64,
    pub task_counts: TaskCounts,
    pub active_workers: usize,
}

/// The worker's health: unhealthy when a pool is stuck or more than ten
/// tasks failed, degraded when no worker is active, healthy otherwise.
pub open spec fn health_status(any_stuck: bool, failed: i64, active: usize) -> Seq<char> {
    if any_stuck {
        "unhealthy"@
    } else if failed > 10 {
        "unhealthy"@
    } else if active == 0 {
        "degraded"@
    } else {
        "healthy"@
    }
}

/// Builds the worker health report.
pub fn worker_health(
    any_stuck: bool,
    uptime_secs: u64,
    running: i64,
    queued: i64,
    failed: i64,
    active_workers: usize,
) -> (r: WorkerHealthResponse)
    ensures
        r.status@ == health_status(any_stuck, failed, active_workers),
        r.uptime_secs == uptime_secs,
        r.task_counts.running == running,
        r.task_counts.queued == queued,
        r.task_counts.failed == failed,
        r.active_workers == active_workers,
{
    let status = if any_stuck {
        "unhealthy"
    } else if failed > 10 {
        "unhealthy"
    } else if active_workers == 0 {
        "degraded"
    } else {
        "healthy"
    };
    WorkerHealthResponse {
        status,
        uptime_secs,
        task_counts: TaskCounts { running, queued, failed },
        active_workers,
    }
}

/// A stuck pool always makes the worker unhealthy.
pub proof fn law_stuck_pool_is_unhealthy(failed: i64, active: usize)
    ensures
        health_status(true, failed, active) == "unhealthy"@,
{
}

} // verus!
