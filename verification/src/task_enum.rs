//! The status and type of a background task, with their text forms.
use vstd::prelude::*;

use crate::text::{owned, push_chars, chars_of, str_eq};

verus! {

/// Where a background task is in its life cycle.
#[derive(Clone, Copy, Debug, PartialEq, Eq, Structural, PartialOrd, Ord, Hash)]
pub enum TaskStatus {
    Pending,
    Queued,
    Running,
    Done,
    Failed,
    Killed,
    Dead,
}

/// The kind of work a background task performs.
#[derive(Clone, Copy, Debug, PartialEq, Eq, Structural, Hash)]
pub enum TaskType {
    Crawl,
    Download,
    ColorExtract,
    Upload,
    AccessibilityCheck,
    Discover,
    RefreshPixivToken,
    Cleanup,
}

/// The text under which a status is stored and shown.
pub open spec fn status_text(s: TaskStatus) -> Seq<char> {
    match s {
        TaskStatus::Pending => "pending"@,
        TaskStatus::Queued => "queued"@,
        TaskStatus::Running => "running"@,
        TaskStatus::Done => "done"@,
        TaskStatus::Failed => "failed"@,
        TaskStatus::Killed => "killed"@,
        TaskStatus::Dead => "dead"@,
    }
}

/// The text under which a task type is stored and shown.
pub open spec fn type_text(t: TaskType) -> Seq<char> {
    match t {
        TaskType::Crawl => "crawl"@,
        TaskType::Download => "download"@,
        TaskType::ColorExtract => "color_extract"@,
        TaskType::Upload => "upload"@,
        TaskType::AccessibilityCheck => "accessibility_check"@,
        TaskType::Discover => "discover"@,
        TaskType::RefreshPixivToken => "refresh_pixiv_token"@,
        TaskType::Cleanup => "cleanup"@,
    }
}

/// The status whose text is `t`, if any.
pub open spec fn status_from_text(t: Seq<char>) -> Option<TaskStatus> {
    if t == "pending"@ {
        Some(TaskStatus::Pending)
    } else if t == "queued"@ {
        Some(TaskStatus::Queued)
    } else if t == "running"@ {
        Some(TaskStatus::Running)
    } else if t == "done"@ {
        Some(TaskStatus::Done)
    } else if t == "failed"@ {
        Some(TaskStatus::Failed)
    } else if t == "killed"@ {
        Some(TaskStatus::Killed)
    } else if t == "dead"@ {
        Some(TaskStatus::Dead)
    } else {
        None
    }
}

/// The task type whose text is `t`, if any.
pub open spec fn type_from_text(t: Seq<char>) -> Option<TaskType> {
    if t == "crawl"@ {
        Some(TaskType::Crawl)
    } else if t == "download"@ {
        Some(TaskType::Download)
    } else if t == "color_extract"@ {
        Some(TaskType::ColorExtract)
    } else if t == "upload"@ {
        Some(TaskType::Upload)
    } else if t == "accessibility_check"@ {
        Some(TaskType::AccessibilityCheck)
    } else if t == "discover"@ {
        Some(TaskType::Discover)
    } else if t == "refresh_pixiv_token"@ {
        Some(TaskType::RefreshPixivToken)
    } else if t == "cleanup"@ {
        Some(TaskType::Cleanup)
    } else {
        None
    }
}

/// A status from which a task does not move on by itself.
pub open spec fn status_is_terminal(s: TaskStatus) -> bool {
    s == TaskStatus::Done || s == TaskStatus::Failed || s == TaskStatus::Killed || s
        == TaskStatus::Dead
}

/// The error text for a string that names no status.
pub open spec fn invalid_status_message(t: Seq<char>) -> Seq<char> {
    "invalid task status: "@ + t
}

/// The error text for a string that names no task type.
pub open spec fn invalid_type_message(t: Seq<char>) -> Seq<char> {
    "invalid task type: "@ + t
}

fn message_with(prefix: &str, s: &str) -> (r: String)
    ensures
        r@ == prefix@ + s@,
{
    let mut r = owned(prefix);
    let v = chars_of(s);
    push_chars(&mut r, &v);
    r
}

impl TaskStatus {
    /// The text of this status.
    pub fn as_str(&self) -> (r: &'static str)
        ensures
            r@ == status_text(*self),
    {
        match self {
            TaskStatus::Pending => "pending",
            TaskStatus::Queued => "queued",
            TaskStatus::Running => "running",
            TaskStatus::Done => "done",
            TaskStatus::Failed => "failed",
            TaskStatus::Killed => "killed",
            TaskStatus::Dead => "dead",
        }
    }

    /// Whether this status ends the task's life cycle.
    pub fn is_terminal(&self) -> (r: bool)
        ensures
            r == status_is_terminal(*self),
    {
        match self {
            TaskStatus::Done | TaskStatus::Failed | TaskStatus::Killed | TaskStatus::Dead => true,
            _ => false,
        }
    }

    /// Reads a status from its text; any other text is an error that quotes it.
    pub fn parse(s: &str) -> (r: Result<TaskStatus, String>)
        ensures
            match status_from_text(s@) {
                Some(st) => r == Ok::<TaskStatus, String>(st),
                None => r matches Err(e) && e@ == invalid_status_message(s@),
            },
    {
        if str_eq(s, "pending") {
            Ok(TaskStatus::Pending)
        } else if str_eq(s, "queued") {
            Ok(TaskStatus::Queued)
        } else if str_eq(s, "running") {
            Ok(TaskStatus::Running)
        } else if str_eq(s, "done") {
            Ok(TaskStatus::Done)
        } else if str_eq(s, "failed") {
            Ok(TaskStatus::Failed)
        } else if str_eq(s, "killed") {
            Ok(TaskStatus::Killed)
        } else if str_eq(s, "dead") {
            Ok(TaskStatus::Dead)
        } else {
            Err(message_with("invalid task status: ", s))
        }
    }
}

impl TaskType {
    /// The text of a task type.
    pub fn as_str(&self) -> (r: &'static str)
        ensures
            r@ == type_text(*self),
    {
        match self {
            TaskType::Crawl => "crawl",
            TaskType::Download => "download",
            TaskType::ColorExtract => "color_extract",
            TaskType::Upload => "upload",
            TaskType::AccessibilityCheck => "accessibility_check",
            TaskType::Discover => "discover",
            TaskType::RefreshPixivToken => "refresh_pixiv_token",
            TaskType::Cleanup => "cleanup",
        }
    }

    /// Reads a task type from its text; any other text is an error that quotes it.
    pub fn parse(s: &str) -> (r: Result<TaskType, String>)
        ensures
            match type_from_text(s@) {
                Some(t) => r == Ok::<TaskType, String>(t),
                None => r matches Err(e) && e@ == invalid_type_message(s@),
            },
    {
        if str_eq(s, "crawl") {
            Ok(TaskType::Crawl)
        } else if str_eq(s, "download") {
            Ok(TaskType::Download)
        } else if str_eq(s, "color_extract") {
            Ok(TaskType::ColorExtract)
        } else if str_eq(s, "upload") {
            Ok(TaskType::Upload)
        } else if str_eq(s, "accessibility_check") {
            Ok(TaskType::AccessibilityCheck)
        } else if str_eq(s, "discover") {
            Ok(TaskType::Discover)
        } else if str_eq(s, "refresh_pixiv_token") {
            Ok(TaskType::RefreshPixivToken)
        } else if str_eq(s, "cleanup") {
            Ok(TaskType::Cleanup)
        } else {
            Err(message_with("invalid task type: ", s))
        }
    }
}

impl std::str::FromStr for TaskStatus {
    type Err = String;

    /// Reads a status from its text, as `TaskStatus::parse` does.
    fn from_str(s: &str) -> (r: Result<TaskStatus, String>)
        ensures
            match status_from_text(s@) {
                Some(st) => r == Ok::<TaskStatus, String>(st),
                None => r matches Err(e) && e@ == invalid_status_message(s@),
            },
    {
        TaskStatus::parse(s)
    }
}

impl std::str::FromStr for TaskType {
    type Err = String;

    /// Reads a task type from its text, as `TaskType::parse` does.
    fn from_str(s: &str) -> (r: Result<TaskType, String>)
        ensures
            match type_from_text(s@) {
                Some(t) => r == Ok::<TaskType, String>(t),
                None => r matches Err(e) && e@ == invalid_type_message(s@),
            },
    {
        TaskType::parse(s)
    }
}

/// Whether moving a task to `status` records its completion time: done,
/// failed and killed tasks are complete.
pub fn completes_task(status: TaskStatus) -> (r: bool)
    ensures
        r == (status == TaskStatus::Done || status == TaskStatus::Failed || status
            == TaskStatus::Killed),
{
    match status {
        TaskStatus::Done | TaskStatus::Failed | TaskStatus::Killed => true,
        _ => false,
    }
}

/// The message a dead letter with an unknown task type is refused with
/// when it is put back in the queue.
pub open spec fn requeue_error_message(t: Seq<char>) -> Seq<char> {
    "Invalid task type '"@ + t + "': "@ + invalid_type_message(t)
}

/// The task type a dead letter is put back in the queue as, or the
/// refusal of an unknown one.
pub fn requeue_task_type(t: &str) -> (r: Result<TaskType, String>)
    ensures
        match type_from_text(t@) {
            Some(x) => r == Ok::<TaskType, String>(x),
            None => r matches Err(e) && e@ == requeue_error_message(t@),
        },
{
    match TaskType::parse(t) {
        Ok(x) => Ok(x),
        Err(e) => {
            let mut m = message_with("Invalid task type '", t);
            let rest = message_with("': ", e.as_str());
            let v = chars_of(rest.as_str());
            push_chars(&mut m, &v);
            assert(m@ =~= requeue_error_message(t@));
            Err(m)
        },
    }
}

/// Reading back the text of a status gives that status, and no other text
/// gives it: the text form of a status is a faithful encoding.
pub proof fn law_status_text_round_trip(s: TaskStatus, t: Seq<char>)
    ensures
        status_from_text(status_text(s)) == Some(s),
        status_from_text(t) == Some(s) ==> t == status_text(s),
{
    reveal_strlit("pending");
    reveal_strlit("queued");
    reveal_strlit("running");
    reveal_strlit("done");
    reveal_strlit("failed");
    reveal_strlit("killed");
    reveal_strlit("dead");
    assert("queued"@.len() != "pending"@.len());
    assert("running"@[0] != "pending"@[0]);
    assert("running"@.len() != "queued"@.len());
    assert("done"@.len() != "pending"@.len());
    assert("done"@.len() != "queued"@.len());
    assert("done"@.len() != "running"@.len());
    assert("failed"@.len() != "pending"@.len());
    assert("failed"@[0] != "queued"@[0]);
    assert("failed"@.len() != "running"@.len());
    assert("failed"@.len() != "done"@.len());
    assert("killed"@.len() != "pending"@.len());
    assert("killed"@[0] != "queued"@[0]);
    assert("killed"@.len() != "running"@.len());
    assert("killed"@.len() != "done"@.len());
    assert("killed"@[0] != "failed"@[0]);
    assert("dead"@.len() != "pending"@.len());
    assert("dead"@.len() != "queued"@.len());
    assert("dead"@.len() != "running"@.len());
    assert("dead"@[1] != "done"@[1]);
    assert("dead"@.len() != "failed"@.len());
    assert("dead"@.len() != "killed"@.len());
}

/// Reading back the text of a task type gives that type, and no other text
/// gives it.
pub proof fn law_type_text_round_trip(t: TaskType, x: Seq<char>)
    ensures
        type_from_text(type_text(t)) == Some(t),
        type_from_text(x) == Some(t) ==> x == type_text(t),
{
    reveal_strlit("crawl");
    reveal_strlit("download");
    reveal_strlit("color_extract");
    reveal_strlit("upload");
    reveal_strlit("accessibility_check");
    reveal_strlit("discover");
    reveal_strlit("refresh_pixiv_token");
    reveal_strlit("cleanup");
    assert("download"@.len() != "crawl"@.len());
    assert("color_extract"@.len() != "crawl"@.len());
    assert("color_extract"@.len() != "download"@.len());
    assert("upload"@.len() != "crawl"@.len());
    assert("upload"@.len() != "download"@.len());
    assert("upload"@.len() != "color_extract"@.len());
    assert("accessibility_check"@.len() != "crawl"@.len());
    assert("accessibility_check"@.len() != "download"@.len());
    assert("accessibility_check"@.len() != "color_extract"@.len());
    assert("accessibility_check"@.len() != "upload"@.len());
    assert("discover"@.len() != "crawl"@.len());
    assert("discover"@[1] != "download"@[1]);
    assert("discover"@.len() != "color_extract"@.len());
    assert("discover"@.len() != "upload"@.len());
    assert("discover"@.len() != "accessibility_check"@.len());
    assert("refresh_pixiv_token"@.len() != "crawl"@.len());
    assert("refresh_pixiv_token"@.len() != "download"@.len());
    assert("refresh_pixiv_token"@.len() != "color_extract"@.len());
    assert("refresh_pixiv_token"@.len() != "upload"@.len());
    assert("refresh_pixiv_token"@[0] != "accessibility_check"@[0]);
    assert("refresh_pixiv_token"@.len() != "discover"@.len());
    assert("cleanup"@.len() != "crawl"@.len());
    assert("cleanup"@.len() != "download"@.len());
    assert("cleanup"@.len() != "color_extract"@.len());
    assert("cleanup"@.len() != "upload"@.len());
    assert("cleanup"@.len() != "accessibility_check"@.len());
    assert("cleanup"@.len() != "discover"@.len());
    assert("cleanup"@.len() != "refresh_pixiv_token"@.len());
}

} // verus!
