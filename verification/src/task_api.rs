//! The request-side rules of the task endpoints: task type names, status
//! names in both directions, which statuses a cleanup removes, and paging.
use vstd::prelude::*;

use crate::error::AppError;
use crate::task_enum::{type_text, TaskType};
use crate::text::{chars_of, is_ascii_text, lowercase, owned, push_chars, str_eq, to_lowercase};

verus! {

/// The stored status texts.
pub const STATUS_PENDING: &'static str = "pending";
pub const STATUS_QUEUED: &'static str = "queued";
pub const STATUS_RUNNING: &'static str = "running";
pub const STATUS_DONE: &'static str = "done";
pub const STATUS_FAILED: &'static str = "failed";
pub const STATUS_KILLED: &'static str = "killed";

/// The full job type path stored for a short task type name; other names
/// pass through unchanged.
pub open spec fn task_type_path(short: Seq<char>) -> Seq<char> {
    if short == "crawl"@ {
        "randimg_core::task_queue::jobs::CrawlJob"@
    } else if short == "download"@ {
        "randimg_core::task_queue::jobs::DownloadJob"@
    } else if short == "color-extract"@ || short == "color_extract"@ {
        "randimg_core::task_queue::jobs::ColorExtractJob"@
    } else if short == "upload"@ {
        "randimg_core::task_queue::jobs::UploadJob"@
    } else if short == "accessibility-check"@ || short == "accessibility_check"@ {
        "randimg_core::task_queue::jobs::AccessibilityCheckJob"@
    } else if short == "discover"@ {
        "randimg_core::task_queue::jobs::DiscoverJob"@
    } else if short == "refresh-pixiv-token"@ || short == "refresh_pixiv_token"@ {
        "randimg_core::task_queue::jobs::RefreshPixivTokenJob"@
    } else {
        short
    }
}

/// Maps a short task type name (from the frontend) to the full job type path.
pub fn map_task_type<'a>(short: &'a str) -> (r: &'a str)
    ensures
        r@ == task_type_path(short@),
{
    if str_eq(short, "crawl") {
        "randimg_core::task_queue::jobs::CrawlJob"
    } else if str_eq(short, "download") {
        "randimg_core::task_queue::jobs::DownloadJob"
    } else if str_eq(short, "color-extract") || str_eq(short, "color_extract") {
        "randimg_core::task_queue::jobs::ColorExtractJob"
    } else if str_eq(short, "upload") {
        "randimg_core::task_queue::jobs::UploadJob"
    } else if str_eq(short, "accessibility-check") || str_eq(short, "accessibility_check") {
        "randimg_core::task_queue::jobs::AccessibilityCheckJob"
    } else if str_eq(short, "discover") {
        "randimg_core::task_queue::jobs::DiscoverJob"
    } else if str_eq(short, "refresh-pixiv-token") || str_eq(short, "refresh_pixiv_token") {
        "randimg_core::task_queue::jobs::RefreshPixivTokenJob"
    } else {
        short
    }
}

/// The name of the job that runs tasks of type `t`.
pub open spec fn job_name(t: TaskType) -> Seq<char> {
    match t {
        TaskType::Crawl => "CrawlJob"@,
        TaskType::Download => "DownloadJob"@,
        TaskType::ColorExtract => "ColorExtractJob"@,
        TaskType::Upload => "UploadJob"@,
        TaskType::AccessibilityCheck => "AccessibilityCheckJob"@,
        TaskType::Discover => "DiscoverJob"@,
        TaskType::RefreshPixivToken => "RefreshPixivTokenJob"@,
        TaskType::Cleanup => "CleanupJob"@,
    }
}

/// The job type path stored for tasks of type `t`: the job's name inside
/// the module of jobs.
pub open spec fn job_path(t: TaskType) -> Seq<char> {
    "randimg_core::task_queue::jobs::"@ + job_name(t)
}

/// `s` with every underscore written as a hyphen.
pub open spec fn hyphenated(s: Seq<char>) -> Seq<char> {
    s.map_values(|c: char| if c == '_' { '-' } else { c })
}

/// Every task type that the listing can filter on is found by its name:
/// the stored name of a type, and the same name with hyphens in place of
/// underscores, both map to the job path of that type.
pub proof fn law_task_type_names_map_to_job_paths(t: TaskType)
    requires
        t != TaskType::Cleanup,
    ensures
        task_type_path(type_text(t)) == job_path(t),
        task_type_path(hyphenated(type_text(t))) == job_path(t),
{
    reveal_strlit("crawl");
    reveal_strlit("download");
    reveal_strlit("color-extract");
    reveal_strlit("color_extract");
    reveal_strlit("upload");
    reveal_strlit("accessibility-check");
    reveal_strlit("accessibility_check");
    reveal_strlit("discover");
    reveal_strlit("refresh-pixiv-token");
    reveal_strlit("refresh_pixiv_token");
    reveal_strlit("randimg_core::task_queue::jobs::");
    reveal_strlit("CrawlJob");
    reveal_strlit("randimg_core::task_queue::jobs::CrawlJob");
    reveal_strlit("DownloadJob");
    reveal_strlit("randimg_core::task_queue::jobs::DownloadJob");
    reveal_strlit("ColorExtractJob");
    reveal_strlit("randimg_core::task_queue::jobs::ColorExtractJob");
    reveal_strlit("UploadJob");
    reveal_strlit("randimg_core::task_queue::jobs::UploadJob");
    reveal_strlit("AccessibilityCheckJob");
    reveal_strlit("randimg_core::task_queue::jobs::AccessibilityCheckJob");
    reveal_strlit("DiscoverJob");
    reveal_strlit("randimg_core::task_queue::jobs::DiscoverJob");
    reveal_strlit("RefreshPixivTokenJob");
    reveal_strlit("randimg_core::task_queue::jobs::RefreshPixivTokenJob");
    assert("download"@.len() != "crawl"@.len());
    assert("color-extract"@.len() != "crawl"@.len());
    assert("color-extract"@.len() != "download"@.len());
    assert("color_extract"@.len() != "crawl"@.len());
    assert("color_extract"@.len() != "download"@.len());
    assert("color_extract"@[5] != "color-extract"@[5]);
    assert("upload"@.len() != "crawl"@.len());
    assert("upload"@.len() != "download"@.len());
    assert("upload"@.len() != "color-extract"@.len());
    assert("upload"@.len() != "color_extract"@.len());
    assert("accessibility-check"@.len() != "crawl"@.len());
    assert("accessibility-check"@.len() != "download"@.len());
    assert("accessibility-check"@.len() != "color-extract"@.len());
    assert("accessibility-check"@.len() != "color_extract"@.len());
    assert("accessibility-check"@.len() != "upload"@.len());
    assert("accessibility_check"@.len() != "crawl"@.len());
    assert("accessibility_check"@.len() != "download"@.len());
    assert("accessibility_check"@.len() != "color-extract"@.len());
    assert("accessibility_check"@.len() != "color_extract"@.len());
    assert("accessibility_check"@.len() != "upload"@.len());
    assert("accessibility_check"@[13] != "accessibility-check"@[13]);
    assert("discover"@.len() != "crawl"@.len());
    assert("discover"@[1] != "download"@[1]);
    assert("discover"@.len() != "color-extract"@.len());
    assert("discover"@.len() != "color_extract"@.len());
    assert("discover"@.len() != "upload"@.len());
    assert("discover"@.len() != "accessibility-check"@.len());
    assert("discover"@.len() != "accessibility_check"@.len());
    assert("refresh-pixiv-token"@.len() != "crawl"@.len());
    assert("refresh-pixiv-token"@.len() != "download"@.len());
    assert("refresh-pixiv-token"@.len() != "color-extract"@.len());
    assert("refresh-pixiv-token"@.len() != "color_extract"@.len());
    assert("refresh-pixiv-token"@.len() != "upload"@.len());
    assert("refresh-pixiv-token"@[0] != "accessibility-check"@[0]);
    assert("refresh-pixiv-token"@[0] != "accessibility_check"@[0]);
    assert("refresh-pixiv-token"@.len() != "discover"@.len());
    assert("refresh_pixiv_token"@.len() != "crawl"@.len());
    assert("refresh_pixiv_token"@.len() != "download"@.len());
    assert("refresh_pixiv_token"@.len() != "color-extract"@.len());
    assert("refresh_pixiv_token"@.len() != "color_extract"@.len());
    assert("refresh_pixiv_token"@.len() != "upload"@.len());
    assert("refresh_pixiv_token"@[0] != "accessibility-check"@[0]);
    assert("refresh_pixiv_token"@[0] != "accessibility_check"@[0]);
    assert("refresh_pixiv_token"@.len() != "discover"@.len());
    assert("refresh_pixiv_token"@[7] != "refresh-pixiv-token"@[7]);
    match t {
        TaskType::Crawl => {
            assert("randimg_core::task_queue::jobs::CrawlJob"@ =~= "randimg_core::task_queue::jobs::"@ + "CrawlJob"@);
            assert(hyphenated("crawl"@) =~= "crawl"@);
        },
        TaskType::Download => {
            assert("randimg_core::task_queue::jobs::DownloadJob"@ =~= "randimg_core::task_queue::jobs::"@ + "DownloadJob"@);
            assert(hyphenated("download"@) =~= "download"@);
        },
        TaskType::ColorExtract => {
            assert("randimg_core::task_queue::jobs::ColorExtractJob"@ =~= "randimg_core::task_queue::jobs::"@ + "ColorExtractJob"@);
            assert(hyphenated("color_extract"@) =~= "color-extract"@);
        },
        TaskType::Upload => {
            assert("randimg_core::task_queue::jobs::UploadJob"@ =~= "randimg_core::task_queue::jobs::"@ + "UploadJob"@);
            assert(hyphenated("upload"@) =~= "upload"@);
        },
        TaskType::AccessibilityCheck => {
            assert("randimg_core::task_queue::jobs::AccessibilityCheckJob"@ =~= "randimg_core::task_queue::jobs::"@ + "AccessibilityCheckJob"@);
            assert(hyphenated("accessibility_check"@) =~= "accessibility-check"@);
        },
        TaskType::Discover => {
            assert("randimg_core::task_queue::jobs::DiscoverJob"@ =~= "randimg_core::task_queue::jobs::"@ + "DiscoverJob"@);
            assert(hyphenated("discover"@) =~= "discover"@);
        },
        TaskType::RefreshPixivToken => {
            assert("randimg_core::task_queue::jobs::RefreshPixivTokenJob"@ =~= "randimg_core::task_queue::jobs::"@ + "RefreshPixivTokenJob"@);
            assert(hyphenated("refresh_pixiv_token"@) =~= "refresh-pixiv-token"@);
        },
        TaskType::Cleanup => {},
    }
}

/// Any other text is no task type the listing knows, and the filter
/// passes it through unchanged: a name that is neither the stored name of a
/// type (other than cleanup) nor that name with hyphens maps to itself.
pub proof fn law_other_task_type_names_pass_through(short: Seq<char>)
    requires
        forall|t: TaskType|
            t != TaskType::Cleanup ==> short != #[trigger] type_text(t) && short != hyphenated(
                type_text(t),
            ),
    ensures
        task_type_path(short) == short,
{
    assert(short != type_text(TaskType::Crawl));
    assert(short != type_text(TaskType::Download));
    assert(short != type_text(TaskType::ColorExtract));
    reveal_strlit("color_extract");
    reveal_strlit("color-extract");
    assert(hyphenated("color_extract"@) =~= "color-extract"@);
    assert(short != type_text(TaskType::Upload));
    assert(short != type_text(TaskType::AccessibilityCheck));
    reveal_strlit("accessibility_check");
    reveal_strlit("accessibility-check");
    assert(hyphenated("accessibility_check"@) =~= "accessibility-check"@);
    assert(short != type_text(TaskType::Discover));
    assert(short != type_text(TaskType::RefreshPixivToken));
    reveal_strlit("refresh_pixiv_token");
    reveal_strlit("refresh-pixiv-token");
    assert(hyphenated("refresh_pixiv_token"@) =~= "refresh-pixiv-token"@);
}

/// The API status for a stored status text, already lowercased.
pub open spec fn api_status(lower: Seq<char>) -> Seq<char> {
    if lower == "pending"@ || lower == "queued"@ {
        "pending"@
    } else if lower == "running"@ {
        "running"@
    } else if lower == "done"@ {
        "completed"@
    } else if lower == "failed"@ {
        "failed"@
    } else if lower == "killed"@ {
        "killed"@
    } else {
        "unknown"@
    }
}

/// Maps a lowercased stored status to the API status.
pub fn map_lower_status(lower: &str) -> (r: &'static str)
    ensures
        r@ == api_status(lower@),
{
    if str_eq(lower, STATUS_PENDING) || str_eq(lower, STATUS_QUEUED) {
        "pending"
    } else if str_eq(lower, STATUS_RUNNING) {
        "running"
    } else if str_eq(lower, STATUS_DONE) {
        "completed"
    } else if str_eq(lower, STATUS_FAILED) {
        "failed"
    } else if str_eq(lower, STATUS_KILLED) {
        "killed"
    } else {
        "unknown"
    }
}

/// Maps a stored status, in any letter case, to the API status.
pub fn map_status(status: &str) -> (r: &'static str)
    ensures
        r@ == api_status(lowercase(status@)),
{
    let lower = to_lowercase(status);
    map_lower_status(lower.as_str())
}

/// The stored statuses an API status filter stands for; an unknown filter
/// stands for the waiting ones.
pub open spec fn stored_statuses(api: Seq<char>) -> Seq<Seq<char>> {
    if api == "pending"@ || api == "queued"@ {
        seq!["pending"@, "queued"@]
    } else if api == "running"@ {
        seq!["running"@]
    } else if api == "completed"@ {
        seq!["done"@]
    } else if api == "failed"@ {
        seq!["failed"@]
    } else if api == "killed"@ {
        seq!["killed"@]
    } else {
        seq!["pending"@, "queued"@]
    }
}

/// The texts of a list of string slices.
pub open spec fn texts(v: Seq<&str>) -> Seq<Seq<char>> {
    v.map_values(|s: &str| s@)
}

/// Maps an API status filter to the stored status strings.
pub fn unmap_status(status: &str) -> (r: Vec<&'static str>)
    ensures
        texts(r@) == stored_statuses(status@),
{
    let r: Vec<&'static str> = if str_eq(status, "pending") || str_eq(status, "queued") {
        vec![STATUS_PENDING, STATUS_QUEUED]
    } else if str_eq(status, "running") {
        vec![STATUS_RUNNING]
    } else if str_eq(status, "completed") {
        vec![STATUS_DONE]
    } else if str_eq(status, "failed") {
        vec![STATUS_FAILED]
    } else if str_eq(status, "killed") {
        vec![STATUS_KILLED]
    } else {
        vec![STATUS_PENDING, STATUS_QUEUED]
    };
    assert(texts(r@) =~= stored_statuses(status@));
    r
}

/// The stored statuses a subtask status filter stands for; an unknown
/// filter is used as it is.
pub open spec fn subtask_statuses(api: Seq<char>) -> Seq<Seq<char>> {
    if api == "pending"@ {
        seq!["pending"@, "queued"@]
    } else if api == "running"@ {
        seq!["running"@]
    } else if api == "completed"@ {
        seq!["done"@]
    } else if api == "failed"@ {
        seq!["failed"@]
    } else if api == "killed"@ {
        seq!["killed"@]
    } else {
        seq![api]
    }
}

/// Maps a subtask status filter to the stored status strings.
pub fn subtask_status_filter<'a>(status: &'a str) -> (r: Vec<&'a str>)
    ensures
        texts(r@) == subtask_statuses(status@),
{
    let r: Vec<&'a str> = if str_eq(status, "pending") {
        vec![STATUS_PENDING, STATUS_QUEUED]
    } else if str_eq(status, "running") {
        vec![STATUS_RUNNING]
    } else if str_eq(status, "completed") {
        vec![STATUS_DONE]
    } else if str_eq(status, "failed") {
        vec![STATUS_FAILED]
    } else if str_eq(status, "killed") {
        vec![STATUS_KILLED]
    } else {
        vec![status]
    };
    assert(texts(r@) =~= subtask_statuses(status@));
    r
}

/// The page size and offset of a task listing: 50 items unless asked,
/// never more than 200, from offset 0 unless asked.
pub fn list_page(limit: Option<u64>, offset: Option<u64>) -> (r: (u64, u64))
    ensures
        r.0 == match limit {
            Some(l) => if l < 200 { l } else { 200 },
            None => 50,
        },
        r.1 == match offset {
            Some(o) => o,
            None => 0,
        },
{
    let l = match limit {
        Some(l) => if l < 200 { l } else { 200 },
        None => 50,
    };
    let o = match offset {
        Some(o) => o,
        None => 0,
    };
    (l, o)
}

/// Showing a stored status always gives one of the API names, and for
/// ASCII text it does not depend on letter case: the status shown for a
/// text is the one shown for its lowercase form.
pub proof fn law_map_status_case_insensitive(s: Seq<char>)
    ensures
        api_status(lowercase(s)) == "pending"@ || api_status(lowercase(s)) == "running"@
            || api_status(lowercase(s)) == "completed"@ || api_status(lowercase(s)) == "failed"@
            || api_status(lowercase(s)) == "killed"@ || api_status(lowercase(s)) == "unknown"@,
        is_ascii_text(s) ==> api_status(lowercase(lowercase(s))) == api_status(lowercase(s)),
{
    if is_ascii_text(s) {
        crate::text::law_lowercase_idempotent_on_ascii(s);
    }
}

/// Filtering a listing by an API status and showing the stored statuses it
/// stands for give back that API status: every stored status that the
/// filter `pending`, `running`, `completed`, `failed` or `killed` selects
/// is shown under that same name.
pub proof fn law_status_filter_round_trip(api: Seq<char>)
    requires
        api == "pending"@ || api == "running"@ || api == "completed"@ || api == "failed"@ || api
            == "killed"@,
    ensures
        forall|i: int| 0 <= i < stored_statuses(api).len() ==> #[trigger] api_status(stored_statuses(api)[i]) == api,
{
    reveal_strlit("pending");
    reveal_strlit("queued");
    reveal_strlit("running");
    reveal_strlit("done");
    reveal_strlit("failed");
    reveal_strlit("killed");
    reveal_strlit("completed");
    reveal_strlit("unknown");
    assert("queued"@.len() != "pending"@.len());
    assert("running"@[0] != "pending"@[0]);
    assert("running"@.len() != "queued"@.len());
    assert("done"@.len() != "pending"@.len());
    assert("done"@.len() != "queued"@.len());
    assert("done"@.len() != "running"@.len());
    assert("failed"@.len() != "pending"@.len());
    assert("failed"@[0] != "queued"@[0]);
    assert("failed"@.len() != "running"@.len());
    assert("failed"@.len() != "done"@.len());
    assert("killed"@.len() != "pending"@.len());
    assert("killed"@[0] != "queued"@[0]);
    assert("killed"@.len() != "running"@.len());
    assert("killed"@.len() != "done"@.len());
    assert("killed"@[0] != "failed"@[0]);
    assert("completed"@.len() != "pending"@.len());
    assert("completed"@.len() != "queued"@.len());
    assert("completed"@.len() != "running"@.len());
    assert("completed"@.len() != "done"@.len());
    assert("completed"@.len() != "failed"@.len());
    assert("completed"@.len() != "killed"@.len());
    assert("unknown"@[0] != "pending"@[0]);
    assert("unknown"@.len() != "queued"@.len());
    assert("unknown"@[0] != "running"@[0]);
    assert("unknown"@.len() != "done"@.len());
    assert("unknown"@.len() != "failed"@.len());
    assert("unknown"@.len() != "killed"@.len());
    assert("unknown"@.len() != "completed"@.len());
}

// ---------------------------------------------------------------------------
// Cleanup flags
// ---------------------------------------------------------------------------

/// A flag the cleanup endpoint accepts.
pub open spec fn is_clean_flag(f: Seq<char>) -> bool {
    f == "completed"@ || f == "failed"@ || f == "cancelled"@ || f == "killed"@ || f
        == "pending"@ || f == "running"@ || f == "all"@
}

/// Whether cleanup flag `f` removes tasks in stored status `status`.
pub open spec fn flag_removes(f: Seq<char>, status: Seq<char>) -> bool {
    ||| f == "completed"@ && status == "done"@
    ||| f == "failed"@ && status == "failed"@
    ||| (f == "cancelled"@ || f == "killed"@) && status == "killed"@
    ||| f == "pending"@ && (status == "pending"@ || status == "queued"@)
    ||| f == "running"@ && status == "running"@
    ||| f == "all"@ && (status == "done"@ || status == "failed"@ || status == "killed"@ || status
        == "pending"@ || status == "queued"@ || status == "running"@)
}

/// Whether some flag of `flags` removes tasks in status `status`.
pub open spec fn some_flag_removes(flags: Seq<String>, status: Seq<char>) -> bool {
    exists|i: int| 0 <= i < flags.len() && flag_removes(#[trigger] flags[i]@, status)
}

/// `acc` with `x` appended when `cond` holds.
pub open spec fn push_if(acc: Seq<Seq<char>>, cond: bool, x: Seq<char>) -> Seq<Seq<char>> {
    if cond {
        acc.push(x)
    } else {
        acc
    }
}

/// The stored statuses a set of cleanup flags removes, sorted and without
/// repeats.
pub open spec fn statuses_to_clean(flags: Seq<String>) -> Seq<Seq<char>> {
    let a = push_if(Seq::empty(), some_flag_removes(flags, "done"@), "done"@);
    let b = push_if(a, some_flag_removes(flags, "failed"@), "failed"@);
    let c = push_if(b, some_flag_removes(flags, "killed"@), "killed"@);
    let d = push_if(c, some_flag_removes(flags, "pending"@), "pending"@);
    let e = push_if(d, some_flag_removes(flags, "queued"@), "queued"@);
    push_if(e, some_flag_removes(flags, "running"@), "running"@)
}

/// The flag `all` removes whatever any accepted flag removes, and no
/// other status.
pub proof fn law_all_flag_covers_every_flag(f: Seq<char>, status: Seq<char>)
    ensures
        is_clean_flag(f) && flag_removes(f, status) ==> flag_removes("all"@, status),
        flag_removes("all"@, status) ==> exists|g: Seq<char>| #[trigger] is_clean_flag(g) && g != "all"@
            && flag_removes(g, status),
{
    reveal_strlit("all");
    reveal_strlit("completed");
    reveal_strlit("failed");
    reveal_strlit("pending");
    reveal_strlit("running");
    reveal_strlit("cancelled");
    reveal_strlit("killed");
    assert("completed"@.len() != "all"@.len());
    assert("failed"@.len() != "all"@.len());
    assert("pending"@.len() != "all"@.len());
    assert("running"@.len() != "all"@.len());
    assert("killed"@.len() != "all"@.len());
    if flag_removes("all"@, status) {
        if status == "done"@ {
            assert(is_clean_flag("completed"@) && flag_removes("completed"@, status));
        } else if status == "failed"@ {
            assert(is_clean_flag("failed"@) && flag_removes("failed"@, status));
        } else if status == "killed"@ {
            assert(is_clean_flag("killed"@) && flag_removes("killed"@, status));
        } else if status == "running"@ {
            assert(is_clean_flag("running"@) && flag_removes("running"@, status));
        } else {
            assert(is_clean_flag("pending"@) && flag_removes("pending"@, status));
        }
    }
}

/// Each single cleanup flag removes exactly the stored statuses shown under
/// its own name: `completed`, `failed`, `killed`, `pending` and `running`
/// remove a stored status if and only if that status is shown as the flag
/// (so `pending` removes the pending and the queued tasks, `completed` the
/// done ones), and `cancelled` removes just what `killed` removes.
pub proof fn law_flag_removes_what_it_names(f: Seq<char>, status: Seq<char>)
    ensures
        (f == "completed"@ || f == "failed"@ || f == "killed"@ || f == "pending"@ || f
            == "running"@) ==> (flag_removes(f, status) <==> api_status(status) == f),
        flag_removes("cancelled"@, status) <==> api_status(status) == "killed"@,
{
    reveal_strlit("pending");
    reveal_strlit("queued");
    reveal_strlit("running");
    reveal_strlit("done");
    reveal_strlit("failed");
    reveal_strlit("killed");
    reveal_strlit("completed");
    reveal_strlit("unknown");
    reveal_strlit("cancelled");
    reveal_strlit("all");
    assert("queued"@.len() != "pending"@.len());
    assert("running"@[0] != "pending"@[0]);
    assert("running"@.len() != "queued"@.len());
    assert("done"@.len() != "pending"@.len());
    assert("done"@.len() != "queued"@.len());
    assert("done"@.len() != "running"@.len());
    assert("failed"@.len() != "pending"@.len());
    assert("failed"@[0] != "queued"@[0]);
    assert("failed"@.len() != "running"@.len());
    assert("failed"@.len() != "done"@.len());
    assert("killed"@.len() != "pending"@.len());
    assert("killed"@[0] != "queued"@[0]);
    assert("killed"@.len() != "running"@.len());
    assert("killed"@.len() != "done"@.len());
    assert("killed"@[0] != "failed"@[0]);
    assert("completed"@.len() != "pending"@.len());
    assert("completed"@.len() != "queued"@.len());
    assert("completed"@.len() != "running"@.len());
    assert("completed"@.len() != "done"@.len());
    assert("completed"@.len() != "failed"@.len());
    assert("completed"@.len() != "killed"@.len());
    assert("unknown"@[0] != "pending"@[0]);
    assert("unknown"@.len() != "queued"@.len());
    assert("unknown"@[0] != "running"@[0]);
    assert("unknown"@.len() != "done"@.len());
    assert("unknown"@.len() != "failed"@.len());
    assert("unknown"@.len() != "killed"@.len());
    assert("unknown"@.len() != "completed"@.len());
    assert("cancelled"@.len() != "pending"@.len());
    assert("cancelled"@.len() != "queued"@.len());
    assert("cancelled"@.len() != "running"@.len());
    assert("cancelled"@.len() != "done"@.len());
    assert("cancelled"@.len() != "failed"@.len());
    assert("cancelled"@.len() != "killed"@.len());
    assert("cancelled"@[1] != "completed"@[1]);
    assert("cancelled"@.len() != "unknown"@.len());
    assert("all"@.len() != "pending"@.len());
    assert("all"@.len() != "queued"@.len());
    assert("all"@.len() != "running"@.len());
    assert("all"@.len() != "done"@.len());
    assert("all"@.len() != "failed"@.len());
    assert("all"@.len() != "killed"@.len());
    assert("all"@.len() != "completed"@.len());
    assert("all"@.len() != "unknown"@.len());
    assert("all"@.len() != "cancelled"@.len());
}

/// The error for a flag that is not accepted.
pub open spec fn invalid_flag_message(f: Seq<char>) -> Seq<char> {
    "Invalid flag: '"@ + f
        + "'. Valid flags: [\"completed\", \"failed\", \"cancelled\", \"killed\", \"pending\", \"running\", \"all\"]"@
}

/// Flag `i` is the first one outside the accepted set.
pub open spec fn first_invalid_flag(flags: Seq<String>, i: int) -> bool {
    &&& 0 <= i < flags.len()
    &&& !is_clean_flag(flags[i]@)
    &&& forall|j: int| 0 <= j < i ==> is_clean_flag(#[trigger] flags[j]@)
}

/// Whether `r` is the cleanup endpoint's answer for `flags`: an empty list
/// and a flag outside the accepted set are refused as bad requests (the
/// first such flag is named); otherwise the statuses that some flag removes,
/// in sorted order, each once.
pub open spec fn is_clean_answer(r: Result<Vec<&'static str>, AppError>, flags: Seq<String>) -> bool {
    match r {
        Ok(v) => flags.len() > 0 && (forall|i: int|
            0 <= i < flags.len() ==> is_clean_flag(#[trigger] flags[i]@)) && texts(v@)
            == statuses_to_clean(flags),
        Err(AppError::BadRequest(m)) => if flags.len() == 0 {
            m@ == "At least one flag is required"@
        } else {
            exists|i: int| first_invalid_flag(flags, i) && m@ == invalid_flag_message(flags[i]@)
        },
        Err(_) => false,
    }
}

fn is_clean_flag_exec(f: &str) -> (r: bool)
    ensures
        r == is_clean_flag(f@),
{
    str_eq(f, "completed") || str_eq(f, "failed") || str_eq(f, "cancelled") || str_eq(f, "killed")
        || str_eq(f, "pending") || str_eq(f, "running") || str_eq(f, "all")
}

fn flag_removes_exec(f: &str, status: &str) -> (r: bool)
    ensures
        r == flag_removes(f@, status@),
{
    let done = str_eq(status, "done");
    let failed = str_eq(status, "failed");
    let killed = str_eq(status, "killed");
    let pending = str_eq(status, "pending");
    let queued = str_eq(status, "queued");
    let running = str_eq(status, "running");
    (str_eq(f, "completed") && done) || (str_eq(f, "failed") && failed) || ((str_eq(f, "cancelled")
        || str_eq(f, "killed")) && killed) || (str_eq(f, "pending") && (pending || queued)) || (
    str_eq(f, "running") && running) || (str_eq(f, "all") && (done || failed || killed || pending
        || queued || running))
}

fn any_flag_removes(flags: &Vec<String>, status: &str) -> (r: bool)
    ensures
        r == some_flag_removes(flags@, status@),
{
    let mut i: usize = 0;
    while i < flags.len()
        invariant
            i <= flags.len(),
            forall|j: int| 0 <= j < i ==> !flag_removes(#[trigger] flags@[j]@, status@),
        decreases flags.len() - i,
    {
        if flag_removes_exec(flags[i].as_str(), status) {
            return true;
        }
        i += 1;
    }
    false
}

/// The stored statuses removed by the cleanup `flags`: an empty list and
/// any flag outside "completed", "failed", "cancelled", "killed", "pending",
/// "running", "all" are refused (the first such flag is named); otherwise
/// the statuses that some flag removes, in sorted order, each once.
pub fn clean_statuses(flags: &Vec<String>) -> (r: Result<Vec<&'static str>, AppError>)
    ensures
        is_clean_answer(r, flags@),
{
    if flags.len() == 0 {
        return Err(AppError::BadRequest(owned("At least one flag is required")));
    }
    let mut i: usize = 0;
    while i < flags.len()
        invariant
            i <= flags.len(),
            forall|j: int| 0 <= j < i ==> is_clean_flag(#[trigger] flags@[j]@),
        decreases flags.len() - i,
    {
        if !is_clean_flag_exec(flags[i].as_str()) {
            let mut m = owned("Invalid flag: '");
            push_chars(&mut m, &chars_of(flags[i].as_str()));
            push_chars(
                &mut m,
                &chars_of(
                    "'. Valid flags: [\"completed\", \"failed\", \"cancelled\", \"killed\", \"pending\", \"running\", \"all\"]",
                ),
            );
            assert(first_invalid_flag(flags@, i as int));
            return Err(AppError::BadRequest(m));
        }
        i += 1;
    }
    let mut statuses: Vec<&'static str> = Vec::new();
    let ghost mut acc: Seq<Seq<char>> = Seq::empty();
    if any_flag_removes(flags, STATUS_DONE) {
        statuses.push(STATUS_DONE);
    }
    proof {
        acc = push_if(acc, some_flag_removes(flags@, "done"@), "done"@);
        assert(texts(statuses@) =~= acc);
    }
    if any_flag_removes(flags, STATUS_FAILED) {
        statuses.push(STATUS_FAILED);
    }
    proof {
        acc = push_if(acc, some_flag_removes(flags@, "failed"@), "failed"@);
        assert(texts(statuses@) =~= acc);
    }
    if any_flag_removes(flags, STATUS_KILLED) {
        statuses.push(STATUS_KILLED);
    }
    proof {
        acc = push_if(acc, some_flag_removes(flags@, "killed"@), "killed"@);
        assert(texts(statuses@) =~= acc);
    }
    if any_flag_removes(flags, STATUS_PENDING) {
        statuses.push(STATUS_PENDING);
    }
    proof {
        acc = push_if(acc, some_flag_removes(flags@, "pending"@), "pending"@);
        assert(texts(statuses@) =~= acc);
    }
    if any_flag_removes(flags, STATUS_QUEUED) {
        statuses.push(STATUS_QUEUED);
    }
    proof {
        acc = push_if(acc, some_flag_removes(flags@, "queued"@), "queued"@);
        assert(texts(statuses@) =~= acc);
    }
    if any_flag_removes(flags, STATUS_RUNNING) {
        statuses.push(STATUS_RUNNING);
    }
    proof {
        acc = push_if(acc, some_flag_removes(flags@, "running"@), "running"@);
        assert(texts(statuses@) =~= acc);
    }
    Ok(statuses)
}


// ---------------------------------------------------------------------------
// Request shapes
// ---------------------------------------------------------------------------

/// The task type a request names, mapped to the stored type path.
pub open spec fn mapped_type_spec(t: Option<String>) -> Option<Seq<char>> {
    match t {
        Some(s) => Some(task_type_path(s@)),
        None => None,
    }
}

fn mapped_type_of(t: &Option<String>) -> (r: Option<String>)
    ensures
        crate::clone_util::opt_text(r) == mapped_type_spec(*t),
{
    match t {
        Some(s) => Some(owned(map_task_type(s.as_str()))),
        None => None,
    }
}

/// The body of a bulk cleanup: status flags, and optionally a task type
/// and, for crawls, a crawl type.
#[derive(Debug)]
pub struct CleanTasksRequest {
    /// Status flags to clean: "completed", "failed", "cancelled", "killed",
    /// "pending", "running", "all".
    pub flags: Vec<String>,
    /// Only clean tasks of this job type.
    pub task_type: Option<String>,
    /// Only clean crawl tasks of this crawl type (0 ranking, 1 user, 2 bookmarks).
    pub crawl_type: Option<i32>,
}

impl CleanTasksRequest {
    /// The stored statuses the cleanup removes, or the refusal of its flags.
    pub fn statuses(&self) -> (r: Result<Vec<&'static str>, AppError>)
        ensures
            is_clean_answer(r, self.flags@),
    {
        clean_statuses(&self.flags)
    }

    /// The stored task type the cleanup is limited to, if any.
    pub fn mapped_type(&self) -> (r: Option<String>)
        ensures
            crate::clone_util::opt_text(r) == mapped_type_spec(self.task_type),
    {
        mapped_type_of(&self.task_type)
    }
}

/// The query of a task listing.
pub struct ListTasksQuery {
    pub task_type: Option<String>,
    pub status: Option<String>,
    pub limit: Option<u64>,
    pub offset: Option<u64>,
}

impl ListTasksQuery {
    /// The page size and offset the listing uses.
    pub fn page(&self) -> (r: (u64, u64))
        ensures
            r.0 == match self.limit {
                Some(l) => if l < 200 { l } else { 200 },
                None => 50,
            },
            r.1 == match self.offset {
                Some(o) => o,
                None => 0,
            },
    {
        list_page(self.limit, self.offset)
    }

    /// The stored task type the listing is limited to, if any.
    pub fn mapped_type(&self) -> (r: Option<String>)
        ensures
            crate::clone_util::opt_text(r) == mapped_type_spec(self.task_type),
    {
        mapped_type_of(&self.task_type)
    }

    /// The stored statuses the listing is limited to, if any.
    pub fn mapped_status(&self) -> (r: Option<Vec<&'static str>>)
        ensures
            match self.status {
                Some(s) => r matches Some(v) && texts(v@) == stored_statuses(s@),
                None => r is None,
            },
    {
        match &self.status {
            Some(s) => Some(unmap_status(s.as_str())),
            None => None,
        }
    }
}

/// The query of the endpoint that deletes pending tasks.
pub struct DeletePendingQuery {
    pub task_type: Option<String>,
}

impl DeletePendingQuery {
    /// The stored task type the deletion is limited to, if any.
    pub fn mapped_type(&self) -> (r: Option<String>)
        ensures
            crate::clone_util::opt_text(r) == mapped_type_spec(self.task_type),
    {
        mapped_type_of(&self.task_type)
    }
}

/// The query of the root-task and subtask listings.
pub struct RootsOrSubtasksQuery {
    pub task_type: Option<String>,
    pub crawl_type: Option<i32>,
    pub status: Option<String>,
    pub limit: Option<u64>,
    pub offset: Option<u64>,
}

impl RootsOrSubtasksQuery {
    /// The page size and offset of the root listing.
    pub fn roots_page(&self) -> (r: (u64, u64))
        ensures
            r.0 == match self.limit {
                Some(l) => if l < 200 { l } else { 200 },
                None => 50,
            },
            r.1 == match self.offset {
                Some(o) => o,
                None => 0,
            },
    {
        list_page(self.limit, self.offset)
    }

    /// The stored task type the listing is limited to, if any.
    pub fn mapped_type(&self) -> (r: Option<String>)
        ensures
            crate::clone_util::opt_text(r) == mapped_type_spec(self.task_type),
    {
        mapped_type_of(&self.task_type)
    }

    /// The stored statuses the subtask listing is limited to, if any.
    pub fn subtask_statuses(&self) -> (r: Option<Vec<&str>>)
        ensures
            match self.status {
                Some(s) => r matches Some(v) && texts(v@) == subtask_statuses(s@),
                None => r is None,
            },
    {
        match &self.status {
            Some(s) => Some(subtask_status_filter(s.as_str())),
            None => None,
        }
    }
}

/// The query of the task-tree endpoint.
#[derive(Debug)]
pub struct TaskTreeQuery {
    pub flatten: Option<bool>,
    pub limit: Option<u64>,
    pub offset: Option<u64>,
}

impl TaskTreeQuery {
    /// Whether the tree is answered as a flat list; nested by default.
    pub fn is_flat(&self) -> (r: bool)
        ensures
            r == (self.flatten == Some(true)),
    {
        match self.flatten {
            Some(b) => b,
            None => false,
        }
    }

    /// The window of a flat answer over `total` tasks: from the offset (0
    /// by default) on, at most the limit (all by default), cut at the end.
    pub fn window(&self, total: u64) -> (r: (u64, u64))
        ensures
            r.0 == if offset_or_zero(self.offset) < total { offset_or_zero(self.offset) } else { total as int },
            r.1 == if offset_or_zero(self.offset) + limit_or(self.limit, total) < total {
                offset_or_zero(self.offset) + limit_or(self.limit, total)
            } else {
                total as int
            },
    {
        let o = match self.offset {
            Some(o) => o,
            None => 0,
        };
        let l = match self.limit {
            Some(l) => l,
            None => total,
        };
        let start = if o < total { o } else { total };
        let end = if l < total - start { start + l } else { total };
        (start, end)
    }
}

/// An offset, 0 where none is given.
pub open spec fn offset_or_zero(o: Option<u64>) -> int {
    match o {
        Some(x) => x as int,
        None => 0,
    }
}

/// A limit, `default` where none is given.
pub open spec fn limit_or(l: Option<u64>, default: u64) -> int {
    match l {
        Some(x) => x as int,
        None => default as int,
    }
}

/// The query of the endpoint that cancels a task's pending subtasks.
pub struct InterruptSubtasksQuery {
    pub task_type: Option<String>,
}

impl InterruptSubtasksQuery {
    /// The stored task type the cancellation is limited to, if any.
    pub fn mapped_type(&self) -> (r: Option<String>)
        ensures
            crate::clone_util::opt_text(r) == mapped_type_spec(self.task_type),
    {
        mapped_type_of(&self.task_type)
    }
}

} // verus!
