use randimg_core::error::AppError;
use randimg_core::task_api::{
    clean_statuses, list_page, map_lower_status, map_status, map_task_type, subtask_status_filter,
    unmap_status, CleanTasksRequest, DeletePendingQuery, InterruptSubtasksQuery, ListTasksQuery,
    RootsOrSubtasksQuery, TaskTreeQuery,
};
use randimg_core::task_enum::{completes_task, requeue_task_type, TaskStatus, TaskType};
use randimg_core::task_queue::CrawlType;
use randimg_core::task_tree::{
    derived_status_from_flags, effective_root_status, flatten_tree, status_label, TaskDependency,
    TaskTreeNode,
};

fn strings(v: &[&str]) -> Vec<String> {
    v.iter().map(|s| s.to_string()).collect()
}

#[test]
fn task_status_text_round_trip() {
    let all = [
        TaskStatus::Pending,
        TaskStatus::Queued,
        TaskStatus::Running,
        TaskStatus::Done,
        TaskStatus::Failed,
        TaskStatus::Killed,
        TaskStatus::Dead,
    ];
    for s in all {
        assert_eq!(TaskStatus::parse(s.as_str()), Ok(s));
    }
    assert_eq!(TaskStatus::Done.as_str(), "done");
    assert_eq!(TaskStatus::parse("nope"), Err("invalid task status: nope".to_string()));
}

#[test]
fn terminal_statuses() {
    assert!(TaskStatus::Done.is_terminal());
    assert!(TaskStatus::Killed.is_terminal());
    assert!(TaskStatus::Dead.is_terminal());
    assert!(TaskStatus::Failed.is_terminal());
    assert!(!TaskStatus::Running.is_terminal());
    assert!(!TaskStatus::Pending.is_terminal());
}

#[test]
fn task_type_text_round_trip() {
    assert_eq!(TaskType::ColorExtract.as_str(), "color_extract");
    assert_eq!(TaskType::parse("refresh_pixiv_token"), Ok(TaskType::RefreshPixivToken));
    assert_eq!(TaskType::parse("x"), Err("invalid task type: x".to_string()));
    assert_eq!("cleanup".parse::<TaskType>(), Ok(TaskType::Cleanup));
}

#[test]
fn crawl_type_codes() {
    assert_eq!(CrawlType::try_from(0), Ok(CrawlType::Ranking));
    assert_eq!(CrawlType::try_from(2), Ok(CrawlType::Bookmarks));
    assert_eq!(CrawlType::User.code(), 1);
    assert_eq!(CrawlType::try_from(3), Err("Invalid crawl_type: 3".to_string()));
    assert_eq!(CrawlType::try_from(-1), Err("Invalid crawl_type: -1".to_string()));
}

#[test]
fn task_type_names_map_to_paths() {
    assert_eq!(map_task_type("crawl"), "randimg_core::task_queue::jobs::CrawlJob");
    assert_eq!(map_task_type("color-extract"), "randimg_core::task_queue::jobs::ColorExtractJob");
    assert_eq!(map_task_type("color_extract"), "randimg_core::task_queue::jobs::ColorExtractJob");
    assert_eq!(
        map_task_type("refresh-pixiv-token"),
        "randimg_core::task_queue::jobs::RefreshPixivTokenJob"
    );
    assert_eq!(map_task_type("my::Path"), "my::Path");
}

#[test]
fn stored_statuses_map_to_api_names() {
    assert_eq!(map_status("PENDING"), "pending");
    assert_eq!(map_status("Queued"), "pending");
    assert_eq!(map_status("done"), "completed");
    assert_eq!(map_status("Killed"), "killed");
    assert_eq!(map_status("dead"), "unknown");
    assert_eq!(map_lower_status("running"), "running");
}

#[test]
fn api_filters_map_to_stored_statuses() {
    assert_eq!(unmap_status("queued"), vec!["pending", "queued"]);
    assert_eq!(unmap_status("completed"), vec!["done"]);
    assert_eq!(unmap_status("bogus"), vec!["pending", "queued"]);
    assert_eq!(subtask_status_filter("pending"), vec!["pending", "queued"]);
    assert_eq!(subtask_status_filter("bogus"), vec!["bogus"]);
    // Round trip: each stored status the filter selects is shown under it.
    for api in ["pending", "running", "completed", "failed", "killed"] {
        for s in unmap_status(api) {
            assert_eq!(map_status(s), api);
        }
    }
}

#[test]
fn list_paging_defaults_and_cap() {
    assert_eq!(list_page(None, None), (50, 0));
    assert_eq!(list_page(Some(500), Some(7)), (200, 7));
    let q = ListTasksQuery { task_type: Some("crawl".into()), status: Some("failed".into()), limit: Some(10), offset: None };
    assert_eq!(q.page(), (10, 0));
    assert_eq!(q.mapped_type().as_deref(), Some("randimg_core::task_queue::jobs::CrawlJob"));
    assert_eq!(q.mapped_status(), Some(vec!["failed"]));
}

#[test]
fn clean_all_removes_every_status() {
    let r = clean_statuses(&strings(&["all"])).unwrap();
    assert_eq!(r, vec!["done", "failed", "killed", "pending", "queued", "running"]);
}

#[test]
fn clean_flags_sorted_and_deduplicated() {
    let r = clean_statuses(&strings(&["pending", "completed", "cancelled", "killed"])).unwrap();
    assert_eq!(r, vec!["done", "killed", "pending", "queued"]);
}

#[test]
fn clean_refuses_empty_flags() {
    match clean_statuses(&Vec::new()) {
        Err(AppError::BadRequest(m)) => assert_eq!(m, "At least one flag is required"),
        other => panic!("unexpected {:?}", other),
    }
}

#[test]
fn clean_refuses_unknown_flag() {
    match clean_statuses(&strings(&["completed", "nope", "bad"])) {
        Err(AppError::BadRequest(m)) => assert_eq!(
            m,
            "Invalid flag: 'nope'. Valid flags: [\"completed\", \"failed\", \"cancelled\", \"killed\", \"pending\", \"running\", \"all\"]"
        ),
        other => panic!("unexpected {:?}", other),
    }
}

#[test]
fn clean_request_uses_its_flags() {
    let req = CleanTasksRequest { flags: strings(&["failed"]), task_type: Some("upload".into()), crawl_type: None };
    assert_eq!(req.statuses().unwrap(), vec!["failed"]);
    assert_eq!(req.mapped_type().as_deref(), Some("randimg_core::task_queue::jobs::UploadJob"));
}

#[test]
fn other_queries_map_types() {
    let d = DeletePendingQuery { task_type: None };
    assert_eq!(d.mapped_type(), None);
    let i = InterruptSubtasksQuery { task_type: Some("download".into()) };
    assert_eq!(i.mapped_type().as_deref(), Some("randimg_core::task_queue::jobs::DownloadJob"));
    let r = RootsOrSubtasksQuery { task_type: None, crawl_type: Some(1), status: Some("killed".into()), limit: Some(1000), offset: Some(5) };
    assert_eq!(r.roots_page(), (200, 5));
    assert_eq!(r.subtask_statuses(), Some(vec!["killed"]));
}

#[test]
fn tree_window() {
    let q = TaskTreeQuery { flatten: Some(true), limit: Some(4), offset: Some(3) };
    assert!(q.is_flat());
    assert_eq!(q.window(10), (3, 7));
    let all = TaskTreeQuery { flatten: None, limit: None, offset: None };
    assert!(!all.is_flat());
    assert_eq!(all.window(10), (0, 10));
    let past = TaskTreeQuery { flatten: Some(true), limit: Some(u64::MAX), offset: Some(20) };
    assert_eq!(past.window(10), (10, 10));
}

fn node(parent: &str, child: &str, children: Vec<TaskTreeNode>) -> TaskTreeNode {
    TaskTreeNode {
        dep: TaskDependency { parent_job_id: parent.to_string(), child_job_id: child.to_string() },
        children,
    }
}

#[test]
fn flatten_is_depth_first_preorder() {
    let tree = vec![
        node("r", "a", vec![node("a", "a1", vec![]), node("a", "a2", vec![node("a2", "a21", vec![])])]),
        node("r", "b", vec![]),
    ];
    let flat = flatten_tree(&tree, "r", "r");
    let got: Vec<(String, String, String)> = flat
        .into_iter()
        .map(|t| (t.id, t.parent_job_id, t.root_job_id))
        .collect();
    let want: Vec<(String, String, String)> = [
        ("a", "r"),
        ("a1", "a"),
        ("a2", "a"),
        ("a21", "a2"),
        ("b", "r"),
    ]
    .iter()
    .map(|(i, p)| (i.to_string(), p.to_string(), "r".to_string()))
    .collect();
    assert_eq!(got, want);
    assert!(flatten_tree(&Vec::new(), "r", "r").is_empty());
}

#[test]
fn derived_status_rollup() {
    assert_eq!(derived_status_from_flags(true, true, true, true), "running");
    assert_eq!(derived_status_from_flags(false, true, false, true), "killed");
    assert_eq!(derived_status_from_flags(false, true, true, false), "partial_success");
    assert_eq!(derived_status_from_flags(false, true, false, false), "failed");
    assert_eq!(derived_status_from_flags(false, false, true, false), "completed");
    assert_eq!(derived_status_from_flags(false, false, false, false), "pending");
}

#[test]
fn root_status_wins_until_completed() {
    assert_eq!(effective_root_status("running", false, true, true, false), "running");
    assert_eq!(effective_root_status("completed", false, true, true, false), "partial_success");
    assert_eq!(effective_root_status("completed", false, false, false, false), "completed");
    // A dead subtree shows as killed even while the root itself retries.
    assert_eq!(effective_root_status("failed", false, true, false, true), "killed");
    assert_eq!(status_label(&TaskStatus::Done), "completed");
}

use randimg_core::root_query::{build_roots_cte_and_filters, quoted_status_list, roots_cte, BindValue};

#[test]
fn roots_filter_and_binds() {
    let (cte, filter, binds) = build_roots_cte_and_filters(Some(TaskType::Crawl), Some(2), Some("running"));
    assert!(cte.starts_with("WITH RECURSIVE\ndescendants AS (\n"));
    assert_eq!(cte, roots_cte());
    assert_eq!(
        filter,
        " AND COALESCE(rf.has_active, false) = true AND t.task_type::text = $1 AND (t.params::json->>'crawl_type')::int = $2"
    );
    assert!(matches!(&binds[..], [BindValue::Text(t), BindValue::Int(2)] if t == "crawl"));
    let (_, filter, binds) = build_roots_cte_and_filters(None, Some(0), None);
    assert_eq!(filter, " AND (t.params::json->>'crawl_type')::int = $1");
    assert!(matches!(&binds[..], [BindValue::Int(0)]));
    let (_, filter, binds) = build_roots_cte_and_filters(None, None, Some("whatever"));
    assert_eq!(filter, " AND false");
    assert!(binds.is_empty());
    let (_, filter, _) = build_roots_cte_and_filters(None, None, Some("partial_success"));
    assert_eq!(
        filter,
        " AND COALESCE(rf.has_active, false) = false AND COALESCE(rf.has_failed, false) = true AND COALESCE(rf.has_completed, false) = true"
    );
}

#[test]
fn quoted_status_lists() {
    assert_eq!(quoted_status_list(&vec![TaskStatus::Done, TaskStatus::Failed]), "'done','failed'");
    assert_eq!(quoted_status_list(&vec![TaskStatus::Pending]), "'pending'");
    assert_eq!(quoted_status_list(&vec![]), "");
}

#[test]
fn completion_times() {
    assert!(completes_task(TaskStatus::Done));
    assert!(completes_task(TaskStatus::Failed));
    assert!(completes_task(TaskStatus::Killed));
    assert!(!completes_task(TaskStatus::Dead));
    assert!(!completes_task(TaskStatus::Running));
}

#[test]
fn requeued_task_types() {
    assert_eq!(requeue_task_type("upload"), Ok(TaskType::Upload));
    assert_eq!(
        requeue_task_type("nope"),
        Err("Invalid task type 'nope': invalid task type: nope".to_string())
    );
}
