//! The payloads of the background jobs, the defaults they carry, how their
//! retries back off, what happens when one finishes, and how one job's
//! children are wired into the task tree.
use vstd::prelude::*;

use crate::clone_util::{
    copy_opt_ints, copy_opt_string, copy_opt_strings, opt_ints_view, opt_owned, opt_strings_view,
    opt_text,
};
use crate::task_enum::TaskStatus;
use crate::text::{chars_of, owned, push_chars, push_dec};

verus! {

/// Crawl Pixiv illustrations (by user, ranking, or bookmarks).
#[derive(Debug)]
pub struct CrawlJob {
    pub crawler_id: i32,
    pub crawl_type: i32,
    pub target_user_id: Option<String>,
    pub target_start_date: Option<String>,
    pub target_end_date: Option<String>,
    pub target_search_prompt: Option<String>,
    /// Ranking mode: "day", "week", "month", "original", "rookie", "daily_r18", "weekly_r18" (default: "day").
    pub ranking_mode: Option<String>,
    /// User illust type: "illust", "manga" (default: "illust").
    pub illust_type: Option<String>,
    /// Types of illustration to keep; `None` or empty keeps all.
    pub illust_type_filter: Option<Vec<String>>,
    /// Exclude R18 content (x_restrict > 0). Default: false.
    pub exclude_r18: Option<bool>,
    /// Exclude AI-generated content (illust_ai_type > 0). Default: false.
    pub exclude_ai: Option<bool>,
    /// Maximum total pages to crawl (0 or None = unlimited).
    pub max_pages: Option<u32>,
    /// Max discover hops to run after crawl (overrides the global default).
    pub discover_hops: Option<u32>,
    /// Max seed limit for discover (overrides the global default).
    pub discover_seed_limit: Option<u64>,
    /// Seed selection method for discover: "popularity", "views", "bookmarks", "random".
    pub discover_seed_method: Option<String>,
    /// Disable discover entirely for this crawl job. Default: false.
    pub disable_discover: Option<bool>,
    /// Specific Pixiv credential IDs to use.
    pub credential_ids: Option<Vec<i32>>,
    /// Parent task ID for hierarchy tracking.
    pub parent_job_id: Option<String>,
    /// Custom task ID for status tracking.
    pub task_id: Option<String>,
    /// Maximum retry attempts (0 = no retry).
    pub max_retries: i32,
    /// Backoff base in seconds for exponential retry.
    pub backoff_base: u32,
}

/// Download a single image from Pixiv to local disk.
#[derive(Debug)]
pub struct DownloadJob {
    pub image_id: i32,
    pub source_image_url: String,
    pub image_path: String,
    /// Parent task ID for hierarchy tracking.
    pub parent_job_id: Option<String>,
    /// The ID of the root crawl job that originated this pipeline.
    pub root_job_id: Option<String>,
    /// Custom task ID for status tracking.
    pub task_id: Option<String>,
    pub max_retries: i32,
    pub backoff_base: u32,
}

/// Extract color palette from a downloaded image.
#[derive(Debug)]
pub struct ColorExtractJob {
    pub image_id: i32,
    pub image_path: String,
    pub parent_job_id: Option<String>,
    pub task_id: Option<String>,
    pub max_retries: i32,
    pub backoff_base: u32,
}

/// Upload a downloaded image to DogeCloud OSS.
#[derive(Debug)]
pub struct UploadJob {
    pub image_id: i32,
    pub image_path: String,
    pub parent_job_id: Option<String>,
    pub task_id: Option<String>,
    pub max_retries: i32,
    pub backoff_base: u32,
}

/// Check image accessibility.
#[derive(Debug)]
pub struct AccessibilityCheckJob {
    pub image_id: i32,
    pub image_path: String,
    pub parent_job_id: Option<String>,
    pub task_id: Option<String>,
    pub max_retries: i32,
    pub backoff_base: u32,
}

/// Discover related illustrations via Pixiv related-illust API.
#[derive(Debug)]
pub struct DiscoverJob {
    pub hop: u32,
    pub max_hops: Option<u32>,
    pub seed_limit: Option<u64>,
    pub seed_method: Option<String>,
    /// Specific Pixiv credential IDs to use (inherited from the parent crawl job).
    pub credential_ids: Option<Vec<i32>>,
    pub parent_job_id: Option<String>,
    pub task_id: Option<String>,
    /// The ID of the root crawl job that originated this discovery chain.
    pub root_job_id: Option<String>,
    /// Filters inherited from the crawl job.
    pub illust_type_filter: Option<Vec<String>>,
    pub exclude_r18: Option<bool>,
    pub exclude_ai: Option<bool>,
    pub max_retries: i32,
    pub backoff_base: u32,
}

/// Refresh a Pixiv credential's OAuth token.
#[derive(Debug)]
pub struct RefreshPixivTokenJob {
    pub credential_id: i32,
    pub parent_job_id: Option<String>,
    pub task_id: Option<String>,
    pub max_retries: i32,
    pub backoff_base: u32,
}

/// Periodic cleanup of finished tasks and old dead letters.
#[derive(Debug)]
pub struct CleanupJob {
    pub parent_job_id: Option<String>,
    pub task_id: Option<String>,
    pub max_retries: i32,
    pub backoff_base: u32,
}

/// The number of retries a job payload carries when it names none.
pub fn default_max_retries() -> (r: i32)
    ensures
        r == 3,
{
    3
}

/// The backoff base (seconds) a job payload carries when it names none.
pub fn default_backoff_base() -> (r: u32)
    ensures
        r == 2,
{
    2
}

// ---------------------------------------------------------------------------
// Backoff
// ---------------------------------------------------------------------------

/// `b` to the power `e`.
pub open spec fn power(b: int, e: nat) -> int
    decreases e,
{
    if e == 0 {
        1
    } else {
        b * power(b, (e - 1) as nat)
    }
}

proof fn lemma_power_nonneg(b: int, e: nat)
    requires
        b >= 0,
    ensures
        power(b, e) >= 0,
    decreases e,
{
    if e > 0 {
        lemma_power_nonneg(b, (e - 1) as nat);
        assert(b * power(b, (e - 1) as nat) >= 0) by (nonlinear_arith)
            requires
                b >= 0,
                power(b, (e - 1) as nat) >= 0,
        ;
    }
}

proof fn lemma_power_grows(b: int, e1: nat, e2: nat)
    requires
        b >= 1,
        e1 <= e2,
    ensures
        power(b, e1) <= power(b, e2),
    decreases e2,
{
    if e1 < e2 {
        lemma_power_grows(b, e1, (e2 - 1) as nat);
        lemma_power_nonneg(b, (e2 - 1) as nat);
        assert(power(b, (e2 - 1) as nat) <= b * power(b, (e2 - 1) as nat)) by (nonlinear_arith)
            requires
                b >= 1,
                power(b, (e2 - 1) as nat) >= 0,
        ;
    }
}

/// The delay in seconds before retry number `attempt` of a job whose
/// backoff base is `base`: `base` to the power `attempt`.
pub fn backoff_secs(base: u32, attempt: u32) -> (r: u32)
    requires
        power(base as int, attempt as nat) <= u32::MAX,
    ensures
        r == power(base as int, attempt as nat),
{
    if base == 0 {
        if attempt == 0 {
            return 1;
        } else {
            assert(power(0, attempt as nat) == 0 * power(0, (attempt - 1) as nat));
            return 0;
        }
    }
    let mut acc: u32 = 1;
    let mut i: u32 = 0;
    while i < attempt
        invariant
            1 <= base,
            i <= attempt,
            acc == power(base as int, i as nat),
            power(base as int, attempt as nat) <= u32::MAX,
        decreases attempt - i,
    {
        proof {
            lemma_power_grows(base as int, (i + 1) as nat, attempt as nat);
        }
        assert(power(base as int, (i + 1) as nat) == base * power(base as int, i as nat));
        acc = acc * base;
        i += 1;
    }
    acc
}

// ---------------------------------------------------------------------------
// Finishing a job
// ---------------------------------------------------------------------------

/// How a run of a job ended.
pub enum RunOutcome {
    /// The handler returned `Ok`.
    Succeeded,
    /// The handler returned `Err` with this message.
    Failed(String),
    /// The handler did not finish within this many seconds.
    TimedOut(u64),
}

/// What to record once a job run has ended.
pub struct RunRecord {
    /// The status the task is moved to.
    pub status: TaskStatus,
    /// The error message stored on the task, if any.
    pub error_message: Option<String>,
    /// Whether the task must be checked against its retry limit and moved to
    /// the dead letter queue when exhausted.
    pub check_dead_letter: bool,
    /// Whether the job reports failure to the queue (which then retries it);
    /// a timed-out job reports success so that the queue leaves it alone.
    pub report_failure: bool,
}

/// The error message stored for a job that timed out after `secs` seconds.
pub open spec fn timeout_message(secs: u64) -> Seq<char> {
    "Task timed out after "@ + crate::text::dec_text(secs as nat) + "s"@
}

/// Decides what a finished run leaves behind: success marks the task done;
/// failure marks it failed with the handler's message, checks the retry
/// limit, and reports the failure; a timeout marks it failed with a timeout
/// message and checks the retry limit, but does not report failure.
pub fn record_run(outcome: RunOutcome) -> (r: RunRecord)
    ensures
        match outcome {
            RunOutcome::Succeeded => r.status == TaskStatus::Done && r.error_message is None
                && !r.check_dead_letter && !r.report_failure,
            RunOutcome::Failed(msg) => r.status == TaskStatus::Failed && opt_text(r.error_message)
                == Some(msg@) && r.check_dead_letter && r.report_failure,
            RunOutcome::TimedOut(secs) => r.status == TaskStatus::Failed && opt_text(
                r.error_message,
            ) == Some(timeout_message(secs)) && r.check_dead_letter && !r.report_failure,
        },
{
    match outcome {
        RunOutcome::Succeeded => RunRecord {
            status: TaskStatus::Done,
            error_message: None,
            check_dead_letter: false,
            report_failure: false,
        },
        RunOutcome::Failed(msg) => RunRecord {
            status: TaskStatus::Failed,
            error_message: Some(msg),
            check_dead_letter: true,
            report_failure: true,
        },
        RunOutcome::TimedOut(secs) => {
            let mut msg = owned("Task timed out after ");
            push_dec(&mut msg, secs);
            let unit = chars_of("s");
            push_chars(&mut msg, &unit);
            RunRecord {
                status: TaskStatus::Failed,
                error_message: Some(msg),
                check_dead_letter: true,
                report_failure: false,
            }
        },
    }
}

/// Whether a failed task has used up its retries and belongs in the dead
/// letter queue.
pub fn should_move_to_dead_letter(retry_count: i32, max_retries: i32) -> (r: bool)
    ensures
        r == (retry_count >= max_retries),
{
    retry_count >= max_retries
}

/// One entry of a dead letter's failure history (the time is added when
/// it is stored).
#[derive(Debug)]
pub struct FailureRecord {
    pub attempt: i32,
    pub error: String,
}

/// The failure history of a task moving to the dead letter queue: the
/// previous error, if there was a non-empty one, at attempt `retry_count`,
/// then the final error at attempt `retry_count + 1`.
pub fn failure_history(prev_error: Option<&str>, retry_count: i32, error: &str) -> (r: Vec<
    FailureRecord,
>)
    requires
        retry_count < i32::MAX,
    ensures
        match prev_error {
            Some(p) if p@.len() > 0 => r@.len() == 2 && r@[0].attempt == retry_count
                && r@[0].error@ == p@ && r@[1].attempt == retry_count + 1 && r@[1].error@
                == error@,
            _ => r@.len() == 1 && r@[0].attempt == retry_count + 1 && r@[0].error@ == error@,
        },
{
    let mut history: Vec<FailureRecord> = Vec::new();
    match prev_error {
        Some(p) => {
            if !p.is_empty() {
                history.push(FailureRecord { attempt: retry_count, error: owned(p) });
            }
        },
        None => {},
    }
    history.push(FailureRecord { attempt: retry_count + 1, error: owned(error) });
    history
}

// ---------------------------------------------------------------------------
// Wiring children into the task tree
// ---------------------------------------------------------------------------

/// The download job for one saved image page: a child of `parent_id`, in
/// the tree rooted at `root_id`, tracked under `task_id`.
pub fn download_job_for(
    image_id: i32,
    source_image_url: &str,
    image_path: &str,
    parent_id: &str,
    root_id: Option<&str>,
    task_id: &str,
    max_retries: i32,
    backoff_base: u32,
) -> (r: DownloadJob)
    ensures
        r.image_id == image_id,
        r.source_image_url@ == source_image_url@,
        r.image_path@ == image_path@,
        opt_text(r.parent_job_id) == Some(parent_id@),
        opt_text(r.root_job_id) == match root_id {
            Some(x) => Some(x@),
            None => None::<Seq<char>>,
        },
        opt_text(r.task_id) == Some(task_id@),
        r.max_retries == max_retries,
        r.backoff_base == backoff_base,
{
    DownloadJob {
        image_id,
        source_image_url: owned(source_image_url),
        image_path: owned(image_path),
        parent_job_id: Some(owned(parent_id)),
        root_job_id: opt_owned(root_id),
        task_id: Some(owned(task_id)),
        max_retries,
        backoff_base,
    }
}

/// The three jobs that follow a finished download, with the task-tree root
/// they are pushed under.
pub struct DownstreamChildren {
    pub color: ColorExtractJob,
    pub upload: UploadJob,
    pub accessibility: AccessibilityCheckJob,
    /// The root of the tree the children are recorded in: the download's
    /// root job when it has one, else the download itself.
    pub upstream_id: String,
}

/// The downstream pipeline of a download: color extraction (never retried,
/// it is CPU-bound), upload and accessibility check, each a direct child of
/// the download task `current_id`, for the same image.
pub fn downstream_children(
    job: &DownloadJob,
    current_id: &str,
    color_task_id: &str,
    upload_task_id: &str,
    accessibility_task_id: &str,
    max_retries: i32,
    backoff_base: u32,
) -> (r: DownstreamChildren)
    ensures
        r.upstream_id@ == match job.root_job_id {
            Some(root) => root@,
            None => current_id@,
        },
        r.color.image_id == job.image_id,
        r.color.image_path@ == job.image_path@,
        opt_text(r.color.parent_job_id) == Some(current_id@),
        opt_text(r.color.task_id) == Some(color_task_id@),
        r.color.max_retries == 0,
        r.color.backoff_base == backoff_base,
        r.upload.image_id == job.image_id,
        r.upload.image_path@ == job.image_path@,
        opt_text(r.upload.parent_job_id) == Some(current_id@),
        opt_text(r.upload.task_id) == Some(upload_task_id@),
        r.upload.max_retries == max_retries,
        r.upload.backoff_base == backoff_base,
        r.accessibility.image_id == job.image_id,
        r.accessibility.image_path@ == job.image_path@,
        opt_text(r.accessibility.parent_job_id) == Some(current_id@),
        opt_text(r.accessibility.task_id) == Some(accessibility_task_id@),
        r.accessibility.max_retries == max_retries,
        r.accessibility.backoff_base == backoff_base,
{
    let upstream_id = match &job.root_job_id {
        Some(root) => root.clone(),
        None => owned(current_id),
    };
    DownstreamChildren {
        color: ColorExtractJob {
            image_id: job.image_id,
            image_path: job.image_path.clone(),
            parent_job_id: Some(owned(current_id)),
            task_id: Some(owned(color_task_id)),
            max_retries: 0,
            backoff_base,
        },
        upload: UploadJob {
            image_id: job.image_id,
            image_path: job.image_path.clone(),
            parent_job_id: Some(owned(current_id)),
            task_id: Some(owned(upload_task_id)),
            max_retries,
            backoff_base,
        },
        accessibility: AccessibilityCheckJob {
            image_id: job.image_id,
            image_path: job.image_path.clone(),
            parent_job_id: Some(owned(current_id)),
            task_id: Some(owned(accessibility_task_id)),
            max_retries,
            backoff_base,
        },
        upstream_id,
    }
}

/// The discover job a finished crawl starts, unless the crawl disabled
/// discovery: hop 0, a child of the crawl and rooted at it, carrying the
/// crawl's discover settings, credentials and filters.
pub fn first_discover_hop(
    job: &CrawlJob,
    current_id: &str,
    discover_task_id: &str,
    max_retries: i32,
    backoff_base: u32,
) -> (r: Option<DiscoverJob>)
    ensures
        (job.disable_discover == Some(true)) <==> r is None,
        r matches Some(d) ==> {
            &&& d.hop == 0
            &&& d.max_hops == job.discover_hops
            &&& d.seed_limit == job.discover_seed_limit
            &&& d.seed_method == job.discover_seed_method
            &&& opt_ints_view(d.credential_ids) == opt_ints_view(job.credential_ids)
            &&& opt_text(d.parent_job_id) == Some(current_id@)
            &&& opt_text(d.task_id) == Some(discover_task_id@)
            &&& opt_text(d.root_job_id) == Some(current_id@)
            &&& opt_strings_view(d.illust_type_filter) == opt_strings_view(job.illust_type_filter)
            &&& d.exclude_r18 == job.exclude_r18
            &&& d.exclude_ai == job.exclude_ai
            &&& d.max_retries == max_retries
            &&& d.backoff_base == backoff_base
        },
{
    let disabled = match job.disable_discover {
        Some(b) => b,
        None => false,
    };
    if disabled {
        return None;
    }
    Some(
        DiscoverJob {
            hop: 0,
            max_hops: job.discover_hops,
            seed_limit: job.discover_seed_limit,
            seed_method: copy_opt_string(&job.discover_seed_method),
            credential_ids: copy_opt_ints(&job.credential_ids),
            parent_job_id: Some(owned(current_id)),
            task_id: Some(owned(discover_task_id)),
            root_job_id: Some(owned(current_id)),
            illust_type_filter: copy_opt_strings(&job.illust_type_filter),
            exclude_r18: job.exclude_r18,
            exclude_ai: job.exclude_ai,
            max_retries,
            backoff_base,
        },
    )
}

/// The hop limit and seed limit a discover job runs with: its own, or the
/// configured defaults where it names none.
pub fn discover_limits(job: &DiscoverJob, default_max_hops: u32, default_seed_limit: u64) -> (r: (
    u32,
    u64,
))
    ensures
        r.0 == match job.max_hops {
            Some(h) => h,
            None => default_max_hops,
        },
        r.1 == match job.seed_limit {
            Some(l) => l,
            None => default_seed_limit,
        },
{
    let hops = match job.max_hops {
        Some(h) => h,
        None => default_max_hops,
    };
    let seeds = match job.seed_limit {
        Some(l) => l,
        None => default_seed_limit,
    };
    (hops, seeds)
}

/// The next discover hop after `job` (tracked as `current_id`), if the hop
/// limit is not reached: one hop further, with the limits fixed, a child of
/// the current hop and in the same root's tree.
pub fn next_discover_hop(
    job: &DiscoverJob,
    current_id: &str,
    next_task_id: &str,
    max_hops: u32,
    seed_limit: u64,
    max_retries: i32,
    backoff_base: u32,
) -> (r: Option<DiscoverJob>)
    ensures
        (job.hop < max_hops) <==> r is Some,
        r matches Some(d) ==> {
            &&& d.hop == job.hop + 1
            &&& d.max_hops == Some(max_hops)
            &&& d.seed_limit == Some(seed_limit)
            &&& d.seed_method == job.seed_method
            &&& opt_ints_view(d.credential_ids) == opt_ints_view(job.credential_ids)
            &&& opt_text(d.parent_job_id) == Some(current_id@)
            &&& opt_text(d.task_id) == Some(next_task_id@)
            &&& d.root_job_id == job.root_job_id
            &&& opt_strings_view(d.illust_type_filter) == opt_strings_view(job.illust_type_filter)
            &&& d.exclude_r18 == job.exclude_r18
            &&& d.exclude_ai == job.exclude_ai
            &&& d.max_retries == max_retries
            &&& d.backoff_base == backoff_base
        },
{
    if job.hop >= max_hops {
        return None;
    }
    Some(
        DiscoverJob {
            hop: job.hop + 1,
            max_hops: Some(max_hops),
            seed_limit: Some(seed_limit),
            seed_method: copy_opt_string(&job.seed_method),
            credential_ids: copy_opt_ints(&job.credential_ids),
            parent_job_id: Some(owned(current_id)),
            task_id: Some(owned(next_task_id)),
            root_job_id: copy_opt_string(&job.root_job_id),
            illust_type_filter: copy_opt_strings(&job.illust_type_filter),
            exclude_r18: job.exclude_r18,
            exclude_ai: job.exclude_ai,
            max_retries,
            backoff_base,
        },
    )
}

/// The message a discover hop fails with for a seed image without a
/// Pixiv ID.
pub open spec fn missing_source_message(seed_id: i32) -> Seq<char> {
    "Seed "@ + crate::text::int_text(seed_id as int) + " missing source_id"@
}

/// The Pixiv illustration whose related works a seed image leads to: its
/// source ID, read as the unsigned 64-bit ID the API takes (bit for bit);
/// a seed without one fails the hop.
pub fn seed_source_id(seed_id: i32, source_id: Option<i32>) -> (r: Result<u64, String>)
    ensures
        match source_id {
            Some(s) => r == Ok::<u64, String>(s as u64),
            None => r matches Err(m) && m@ == missing_source_message(seed_id),
        },
{
    match source_id {
        Some(s) => Ok(s as u64),
        None => {
            let mut m = owned("Seed ");
            crate::text::push_int(&mut m, seed_id as i64);
            push_chars(&mut m, &chars_of(" missing source_id"));
            Err(m)
        },
    }
}

} // verus!
