use randimg_core::crawl::{
    bookmark_tags, ranking_date, ranking_mode, target_user, user_illust_type, CrawlPager, Cursor,
    TargetUserError,
};
use randimg_core::illust::{
    download_targets, extract_param_from_url, get_image_pages, image_path_for, skip_reason, Illust,
    ImageUrls, MetaPage, MetaSinglePage, SkipReason,
};
use randimg_core::jobs::CrawlJob;

fn urls(original: Option<&str>, large: Option<&str>, medium: Option<&str>) -> ImageUrls {
    ImageUrls {
        original: original.map(|s| s.to_string()),
        large: large.map(|s| s.to_string()),
        medium: medium.map(|s| s.to_string()),
    }
}

fn illust(id: u64) -> Illust {
    Illust {
        id,
        illust_type: Some("illust".to_string()),
        x_restrict: Some(0),
        illust_ai_type: Some(0),
        visible: Some(true),
        meta_pages: None,
        meta_single_page: None,
        image_urls: None,
    }
}

fn pairs(v: &[(&str, &str)]) -> Vec<(String, String)> {
    v.iter().map(|(a, b)| (a.to_string(), b.to_string())).collect()
}

#[test]
fn multi_page_urls_in_order() {
    let mut il = illust(5);
    il.meta_pages = Some(vec![
        MetaPage { image_urls: Some(urls(Some("https://i/o0.png"), Some("https://i/l0.jpg"), None)) },
        MetaPage { image_urls: Some(urls(None, Some("https://i/l1.jpg"), Some("https://i/m1.jpg"))) },
        MetaPage { image_urls: None },
        MetaPage { image_urls: Some(urls(None, None, Some("https://i/m3.jpg"))) },
    ]);
    assert_eq!(
        get_image_pages(&il),
        pairs(&[("https://i/o0.png", "5_p0"), ("https://i/l1.jpg", "5_p1"), ("https://i/m3.jpg", "5_p3")])
    );
}

#[test]
fn single_page_fallbacks() {
    let mut il = illust(77);
    il.meta_pages = Some(vec![MetaPage { image_urls: Some(urls(None, None, None)) }]);
    il.meta_single_page = Some(MetaSinglePage { original_image_url: Some("https://i/single.png".to_string()) });
    il.image_urls = Some(urls(Some("https://i/orig.jpg"), None, None));
    assert_eq!(get_image_pages(&il), pairs(&[("https://i/single.png", "77_p0")]));
    il.meta_single_page = Some(MetaSinglePage { original_image_url: None });
    assert_eq!(get_image_pages(&il), pairs(&[("https://i/orig.jpg", "77_p0")]));
    il.image_urls = Some(urls(None, Some("https://i/large.jpg"), Some("https://i/medium.jpg")));
    assert_eq!(get_image_pages(&il), pairs(&[("https://i/large.jpg", "77_p0")]));
    il.image_urls = Some(urls(None, None, Some("https://i/medium.jpg")));
    assert!(get_image_pages(&il).is_empty());
}

#[test]
fn file_names_follow_url_extension() {
    assert_eq!(image_path_for(5, 0, "https://i.pximg.net/img-original/img/5_p0.png"), "5_p0.png");
    assert_eq!(image_path_for(5, 12, "https://i.pximg.net/img-original/img/5_p12.jpg"), "5_p12.jpg");
    let mut il = illust(9);
    il.meta_pages = Some(vec![
        MetaPage { image_urls: Some(urls(Some("https://i/a.png"), None, None)) },
        MetaPage { image_urls: Some(urls(Some("https://i/b.jpg"), None, None)) },
    ]);
    assert_eq!(
        download_targets(&il),
        pairs(&[("https://i/a.png", "9_p0.png"), ("https://i/b.jpg", "9_p1.jpg")])
    );
}

#[test]
fn crawl_filters() {
    let mut il = illust(1);
    il.image_urls = Some(urls(Some("https://i/x.png"), None, None));
    assert_eq!(skip_reason(&il, &None, None, None), None);
    assert_eq!(skip_reason(&il, &Some(vec![]), None, None), None);
    assert_eq!(skip_reason(&il, &Some(vec!["manga".to_string()]), None, None), Some(SkipReason::TypeFiltered));
    assert_eq!(skip_reason(&il, &Some(vec!["manga".to_string(), "illust".to_string()]), None, None), None);
    il.x_restrict = Some(1);
    assert_eq!(skip_reason(&il, &None, Some(false), None), None);
    assert_eq!(skip_reason(&il, &None, Some(true), None), Some(SkipReason::Restricted));
    il.x_restrict = None;
    il.illust_ai_type = Some(2);
    assert_eq!(skip_reason(&il, &None, None, Some(true)), Some(SkipReason::AiGenerated));
    il.illust_ai_type = Some(1);
    assert_eq!(skip_reason(&il, &None, None, Some(true)), Some(SkipReason::AiGenerated));
    il.illust_ai_type = Some(0);
    assert_eq!(skip_reason(&il, &None, None, Some(true)), None);
    il.visible = Some(false);
    assert_eq!(skip_reason(&il, &None, None, None), Some(SkipReason::Unviewable));
    il.visible = None;
    il.image_urls = Some(urls(Some("https://s.pximg.net/common/images/limit_unknown_360.png"), None, None));
    assert_eq!(skip_reason(&il, &None, None, None), Some(SkipReason::Placeholder));
    il.image_urls = Some(urls(Some("https://s.pximg.net/common/images/limit_sanity_level_360.png"), None, None));
    assert_eq!(skip_reason(&il, &None, None, None), Some(SkipReason::Placeholder));
}

#[test]
fn unknown_kind_is_filtered_out() {
    let mut il = illust(2);
    il.illust_type = None;
    assert_eq!(skip_reason(&il, &Some(vec!["illust".to_string()]), None, None), Some(SkipReason::TypeFiltered));
}

#[test]
fn query_parameters() {
    let next = "https://app-api.pixiv.net/v1/user/bookmarks/illust?user_id=1&restrict=public&max_bookmark_id=12345";
    assert_eq!(extract_param_from_url(next, "max_bookmark_id"), Some("12345".to_string()));
    assert_eq!(extract_param_from_url(next, "user_id"), Some("1".to_string()));
    assert_eq!(extract_param_from_url(next, "bookmark_id"), None);
    assert_eq!(extract_param_from_url("https://x/y", "a"), None);
    assert_eq!(extract_param_from_url("https://x/y?a=", "a"), Some("".to_string()));
    assert_eq!(extract_param_from_url("https://x/y?a=1=2", "a"), Some("1".to_string()));
    assert_eq!(extract_param_from_url("https://x/y?b=1&a=2&a=3", "a"), Some("2".to_string()));
}

fn job() -> CrawlJob {
    CrawlJob {
        crawler_id: 1,
        crawl_type: 1,
        target_user_id: Some("123".to_string()),
        target_start_date: None,
        target_end_date: None,
        target_search_prompt: Some(String::new()),
        ranking_mode: None,
        illust_type: None,
        illust_type_filter: None,
        exclude_r18: None,
        exclude_ai: None,
        max_pages: None,
        discover_hops: None,
        discover_seed_limit: None,
        discover_seed_method: None,
        disable_discover: None,
        credential_ids: None,
        parent_job_id: None,
        task_id: None,
        max_retries: 3,
        backoff_base: 2,
    }
}

#[test]
fn crawl_requests() {
    let mut j = job();
    assert_eq!(ranking_mode(&j), "day");
    j.ranking_mode = Some("week".to_string());
    assert_eq!(ranking_mode(&j), "week");
    assert_eq!(target_user(&j), Ok(123));
    j.target_user_id = Some("abc".to_string());
    assert_eq!(target_user(&j), Err(TargetUserError::Invalid));
    assert_eq!(TargetUserError::Invalid.message(), "invalid target_user_id");
    j.target_user_id = None;
    assert_eq!(target_user(&j), Err(TargetUserError::Missing));
    assert_eq!(TargetUserError::Missing.message(), "missing target_user_id");
    assert_eq!(bookmark_tags(&j), None);
    j.target_search_prompt = Some("landscape".to_string());
    assert_eq!(bookmark_tags(&j), Some("landscape".to_string()));
}

#[test]
fn user_crawl_kind() {
    assert_eq!(user_illust_type(&Some(vec!["manga".to_string()])), Some("manga".to_string()));
    assert_eq!(user_illust_type(&Some(vec!["ugoira".to_string()])), None);
    assert_eq!(user_illust_type(&Some(vec!["illust".to_string(), "manga".to_string()])), None);
    assert_eq!(user_illust_type(&None), None);
}

#[test]
fn ranking_dates() {
    assert_eq!(ranking_date("2024-01-15T08:30:00Z"), "2024-01-15");
    assert_eq!(ranking_date("2024-01"), "2024-01");
    assert_eq!(ranking_date("2024-01-15"), "2024-01-15");
}

#[test]
fn offset_paging_stops_at_page_limit() {
    let mut p = CrawlPager::new(false, Some(2));
    assert_eq!(p.cursor, Cursor::Offset(0));
    assert!(p.after_page(30, Some("https://next")));
    assert_eq!(p.cursor, Cursor::Offset(30));
    assert_eq!(p.pages_processed, 1);
    assert!(!p.after_page(30, Some("https://next")));
    assert_eq!(p.pages_processed, 2);
}

#[test]
fn paging_stops_on_empty_page_or_last_page() {
    let mut p = CrawlPager::new(false, None);
    assert!(!p.after_page(0, Some("https://next")));
    assert_eq!(p.pages_processed, 0);
    assert!(p.after_page(5, Some("https://next")));
    assert!(!p.after_page(5, None));
    assert_eq!(p.pages_processed, 2);
    assert_eq!(p.cursor, Cursor::Offset(5));
}

#[test]
fn bookmark_paging_follows_cursor() {
    let mut p = CrawlPager::new(true, Some(0));
    assert_eq!(p.cursor, Cursor::Bookmark(None));
    assert!(p.after_page(30, Some("https://a/b?user_id=1&max_bookmark_id=999")));
    assert_eq!(p.cursor, Cursor::Bookmark(Some(999)));
    assert!(p.after_page(30, Some("https://a/b?max_bookmark_id=oops")));
    assert_eq!(p.cursor, Cursor::Bookmark(None));
    assert!(!p.after_page(30, Some("https://a/b?user_id=1")));
    assert_eq!(p.pages_processed, 3);
}
