use randimg_core::color::{histogram_primary_color, quantize, quantize_pixel};
use randimg_core::credential::{credential_choice, fast_path_user_id, token_to_save, CredentialChoice};
use randimg_core::jobs::{
    backoff_secs, default_backoff_base, default_max_retries, discover_limits, download_job_for,
    downstream_children, failure_history, first_discover_hop, next_discover_hop, record_run,
    should_move_to_dead_letter, CrawlJob, DiscoverJob, RunOutcome,
};
use randimg_core::retry::{is_auth_failure, retry_step, RetryStep};
use randimg_core::seeds::{choose_random_seeds, SeedMethod};
use randimg_core::task_enum::TaskStatus;
use randimg_core::watchdog::{check_all_pools, check_pool, pool_names, worker_health, PoolCheck};

fn crawl_job() -> CrawlJob {
    CrawlJob {
        crawler_id: 7,
        crawl_type: 0,
        target_user_id: None,
        target_start_date: None,
        target_end_date: None,
        target_search_prompt: None,
        ranking_mode: None,
        illust_type: None,
        illust_type_filter: Some(vec!["illust".to_string()]),
        exclude_r18: Some(true),
        exclude_ai: None,
        max_pages: None,
        discover_hops: Some(2),
        discover_seed_limit: None,
        discover_seed_method: Some("views".to_string()),
        disable_discover: None,
        credential_ids: Some(vec![1, 2]),
        parent_job_id: None,
        task_id: Some("crawl-1".to_string()),
        max_retries: 3,
        backoff_base: 2,
    }
}

#[test]
fn job_defaults() {
    assert_eq!(default_max_retries(), 3);
    assert_eq!(default_backoff_base(), 2);
}

#[test]
fn backoff_is_base_to_the_attempt() {
    assert_eq!(backoff_secs(2, 0), 1);
    assert_eq!(backoff_secs(2, 3), 8);
    assert_eq!(backoff_secs(3, 4), 81);
    assert_eq!(backoff_secs(0, 2), 0);
}

#[test]
fn run_outcomes() {
    let ok = record_run(RunOutcome::Succeeded);
    assert_eq!(ok.status, TaskStatus::Done);
    assert!(ok.error_message.is_none() && !ok.check_dead_letter && !ok.report_failure);
    let failed = record_run(RunOutcome::Failed("boom".to_string()));
    assert_eq!(failed.status, TaskStatus::Failed);
    assert_eq!(failed.error_message.as_deref(), Some("boom"));
    assert!(failed.check_dead_letter && failed.report_failure);
    let timed = record_run(RunOutcome::TimedOut(300));
    assert_eq!(timed.status, TaskStatus::Failed);
    assert_eq!(timed.error_message.as_deref(), Some("Task timed out after 300s"));
    assert!(timed.check_dead_letter && !timed.report_failure);
}

#[test]
fn dead_letter_threshold() {
    assert!(!should_move_to_dead_letter(2, 3));
    assert!(should_move_to_dead_letter(3, 3));
    assert!(should_move_to_dead_letter(0, 0));
}

#[test]
fn failure_history_entries() {
    let h = failure_history(Some("first"), 3, "last");
    assert_eq!(h.len(), 2);
    assert_eq!((h[0].attempt, h[0].error.as_str()), (3, "first"));
    assert_eq!((h[1].attempt, h[1].error.as_str()), (4, "last"));
    let h = failure_history(Some(""), 0, "only");
    assert_eq!(h.len(), 1);
    assert_eq!((h[0].attempt, h[0].error.as_str()), (1, "only"));
    assert_eq!(failure_history(None, 5, "x").len(), 1);
}

#[test]
fn download_and_downstream_wiring() {
    let d = download_job_for(11, "https://i/x.png", "5_p0.png", "crawl-1", Some("crawl-1"), "dl-1", 3, 2);
    assert_eq!(d.image_id, 11);
    assert_eq!(d.parent_job_id.as_deref(), Some("crawl-1"));
    assert_eq!(d.task_id.as_deref(), Some("dl-1"));
    let c = downstream_children(&d, "dl-1", "c", "u", "a", 5, 4);
    assert_eq!(c.upstream_id, "crawl-1");
    assert_eq!(c.color.max_retries, 0);
    assert_eq!(c.upload.max_retries, 5);
    assert_eq!(c.accessibility.backoff_base, 4);
    assert_eq!(c.color.parent_job_id.as_deref(), Some("dl-1"));
    let orphan = download_job_for(12, "u", "p", "parent", None, "dl-2", 3, 2);
    assert_eq!(downstream_children(&orphan, "dl-2", "c", "u", "a", 3, 2).upstream_id, "dl-2");
}

#[test]
fn discover_chain() {
    let job = crawl_job();
    let first = first_discover_hop(&job, "crawl-1", "disc-0", 3, 2).unwrap();
    assert_eq!(first.hop, 0);
    assert_eq!(first.max_hops, Some(2));
    assert_eq!(first.root_job_id.as_deref(), Some("crawl-1"));
    assert_eq!(first.credential_ids, Some(vec![1, 2]));
    let (hops, seeds) = discover_limits(&first, 3, 5);
    assert_eq!((hops, seeds), (2, 5));
    let second = next_discover_hop(&first, "disc-0", "disc-1", hops, seeds, 3, 2).unwrap();
    assert_eq!(second.hop, 1);
    assert_eq!(second.seed_limit, Some(5));
    assert_eq!(second.parent_job_id.as_deref(), Some("disc-0"));
    assert_eq!(second.root_job_id.as_deref(), Some("crawl-1"));
    let third = next_discover_hop(&second, "disc-1", "disc-2", hops, seeds, 3, 2).unwrap();
    assert!(next_discover_hop(&third, "disc-2", "disc-3", hops, seeds, 3, 2).is_none());
    let mut off = crawl_job();
    off.disable_discover = Some(true);
    assert!(first_discover_hop(&off, "crawl-1", "d", 3, 2).is_none());
}

#[test]
fn discover_limits_default() {
    let d = DiscoverJob {
        hop: 0,
        max_hops: None,
        seed_limit: Some(9),
        seed_method: None,
        credential_ids: None,
        parent_job_id: None,
        task_id: None,
        root_job_id: None,
        illust_type_filter: None,
        exclude_r18: None,
        exclude_ai: None,
        max_retries: 3,
        backoff_base: 2,
    };
    assert_eq!(discover_limits(&d, 3, 5), (3, 9));
}

#[test]
fn auth_failures_recognised_in_any_case() {
    assert!(is_auth_failure("HTTP 401"));
    assert!(is_auth_failure("UNAUTHORIZED access"));
    assert!(!is_auth_failure("timeout"));
}

#[test]
fn retry_steps_back_off_and_give_up() {
    match retry_step("illust_ranking", "HTTP 401 Unauthorized", 0, 3, 2000) {
        RetryStep::Recover { retries, delay_ms } => assert_eq!((retries, delay_ms), (1, 2000)),
        other => panic!("unexpected {:?}", other),
    }
    match retry_step("illust_ranking", "Unauthorized", 2, 3, 2000) {
        RetryStep::Recover { retries, delay_ms } => assert_eq!((retries, delay_ms), (3, 8000)),
        other => panic!("unexpected {:?}", other),
    }
    match retry_step("illust_ranking", "401", 3, 3, 2000) {
        RetryStep::GiveUp(m) => assert_eq!(m, "illust_ranking: auth error after 3 retries: 401"),
        other => panic!("unexpected {:?}", other),
    }
    match retry_step("illust_ranking", "connection reset", 0, 3, 2000) {
        RetryStep::Fail(m) => assert_eq!(m, "connection reset"),
        other => panic!("unexpected {:?}", other),
    }
}

#[test]
fn watchdog_pools() {
    assert_eq!(pool_names().len(), 8);
    assert_eq!(pool_names()[2], "color_extract");
    assert_eq!(check_pool(None, 600), PoolCheck::NoActivity);
    assert_eq!(check_pool(Some(601), 600), PoolCheck::Stuck);
    assert_eq!(check_pool(Some(600), 600), PoolCheck::Healthy);
    assert_eq!(
        check_all_pools(&vec![None, Some(5), Some(1000)], 600),
        vec![PoolCheck::NoActivity, PoolCheck::Healthy, PoolCheck::Stuck]
    );
}

#[test]
fn worker_health_status() {
    assert_eq!(worker_health(true, 1, 0, 0, 0, 3).status, "unhealthy");
    assert_eq!(worker_health(false, 1, 0, 0, 11, 3).status, "unhealthy");
    assert_eq!(worker_health(false, 1, 0, 0, 10, 0).status, "degraded");
    let h = worker_health(false, 42, 1, 2, 3, 8);
    assert_eq!(h.status, "healthy");
    assert_eq!((h.uptime_secs, h.task_counts.running, h.task_counts.queued, h.task_counts.failed, h.active_workers), (42, 1, 2, 3, 8));
}

#[test]
fn seed_methods() {
    assert_eq!(SeedMethod::from_str("views"), SeedMethod::Views);
    assert_eq!(SeedMethod::from_str("nonsense"), SeedMethod::Popularity);
    assert_eq!(SeedMethod::default_method(), SeedMethod::Popularity);
    assert_eq!(SeedMethod::Random.candidate_count(4), Some(20));
    assert_eq!(SeedMethod::Popularity.candidate_count(4), Some(12));
    assert_eq!(SeedMethod::Views.candidate_count(4), Some(4));
    assert_eq!(SeedMethod::Random.candidate_count(u64::MAX), None);
}

#[test]
fn random_seed_choice() {
    assert_eq!(choose_random_seeds(3, 5, 99), vec![0, 1, 2]);
    let picked = choose_random_seeds(10, 4, 12345);
    assert_eq!(picked.len(), 4);
    for (i, a) in picked.iter().enumerate() {
        assert!(*a < 10);
        for b in &picked[i + 1..] {
            assert_ne!(a, b);
        }
    }
    assert_eq!(choose_random_seeds(10, 4, 12345), picked);
}

#[test]
fn quantizing_channels() {
    assert_eq!(quantize(200, 8), 208);
    assert_eq!(quantize(255, 8), 240);
    assert_eq!(quantize(0, 1), 128);
    assert_eq!(quantize(255, 255), 255);
    assert_eq!(quantize_pixel(10, 40, 250, 8), [16, 48, 240]);
}

#[test]
fn primary_color_is_most_frequent_bin() {
    let pixels = [[10u8, 10, 10], [12, 12, 12], [200, 0, 0]];
    assert_eq!(histogram_primary_color(&pixels, 8), [16, 16, 16]);
    assert_eq!(histogram_primary_color(&[], 8), [0, 0, 0]);
}

#[test]
fn credential_fast_path() {
    assert_eq!(fast_path_user_id(&Some("tok".to_string()), "12345"), Some(12345));
    assert_eq!(fast_path_user_id(&Some("tok".to_string()), "env_default"), None);
    assert_eq!(fast_path_user_id(&Some("tok".to_string()), "0"), None);
    assert_eq!(fast_path_user_id(&None, "12345"), None);
}

#[test]
fn refresh_token_saved() {
    assert_eq!(token_to_save(&Some("new".to_string()), "old"), "new");
    assert_eq!(token_to_save(&None, "old"), "old");
    assert_eq!(token_to_save(&None, ""), "");
}

#[test]
fn discover_credentials() {
    match credential_choice(&Some(vec![4, 5])) {
        CredentialChoice::AmongIds(v) => assert_eq!(v, vec![4, 5]),
        other => panic!("unexpected {:?}", other),
    }
    assert!(matches!(credential_choice(&Some(vec![])), CredentialChoice::AnyActive));
    assert!(matches!(credential_choice(&None), CredentialChoice::AnyActive));
}

use randimg_core::color::{cluster_counts, fill_indices, top_clusters};

#[test]
fn cluster_counting() {
    assert_eq!(cluster_counts(&vec![0, 2, 2, 1, 2], 4), vec![1, 1, 3, 0]);
    assert_eq!(cluster_counts(&vec![], 2), vec![0, 0]);
    assert_eq!(fill_indices(3, 7), vec![0, 1, 2, 0, 1, 2, 0]);
}

#[test]
fn largest_clusters_first() {
    assert_eq!(top_clusters(&vec![5, 9, 5, 1]), vec![1, 0, 2, 3]);
    let counts: Vec<usize> = (0..12).collect();
    assert_eq!(top_clusters(&counts), vec![11, 10, 9, 8, 7, 6, 5, 4, 3, 2]);
    assert_eq!(top_clusters(&vec![]), Vec::<usize>::new());
    assert_eq!(top_clusters(&vec![2; 12]), vec![0, 1, 2, 3, 4, 5, 6, 7, 8, 9]);
}

use randimg_core::jobs::seed_source_id;

#[test]
fn seed_sources() {
    assert_eq!(seed_source_id(4, Some(123)), Ok(123));
    assert_eq!(seed_source_id(4, Some(-1)), Ok(u64::MAX));
    assert_eq!(seed_source_id(4, None), Err("Seed 4 missing source_id".to_string()));
    assert_eq!(seed_source_id(-2, None), Err("Seed -2 missing source_id".to_string()));
}
