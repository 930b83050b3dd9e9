use randimg_core::auth::{AuthUser, Claims, OptionalAuthUser, TOKEN_AUDIENCE, TOKEN_ISSUER};
use randimg_core::config::{AppConfig, BindAddr, ConfigError, ConfigValue};
use randimg_core::error::AppError;
use randimg_core::image_api::{
    author_filter, color_mode, detail_visible, image_src, lab_parts, list_settings, parse_rgb,
    parse_sort_key, search_limit, size_bounds, tag_names, tag_translation_update, tags_of,
    validate_update, AuthorFilter, ImageQuery, JsonKind, ResponseMode, SortKey, TagInfo,
};
use randimg_core::image_api::{plan_update, FieldValue};
use randimg_core::pixiv_error::{ClientErrorKind, PixivError};

fn bad_request(r: Result<(), AppError>) -> String {
    match r {
        Err(AppError::BadRequest(m)) => m,
        other => panic!("unexpected {:?}", other),
    }
}

#[test]
fn response_modes() {
    let q = |format: Option<&str>, local: Option<bool>| ImageQuery { format: format.map(|s| s.to_string()), local };
    assert_eq!(q(None, None).response_mode(), ResponseMode::Json);
    assert_eq!(q(Some("image"), None).response_mode(), ResponseMode::Redirect);
    assert_eq!(q(Some("image"), Some(true)).response_mode(), ResponseMode::LocalFile);
    assert_eq!(q(Some("json"), Some(false)).response_mode(), ResponseMode::Json);
}

#[test]
fn image_urls_and_visibility() {
    assert_eq!(image_src("https://cdn.example.com/", "5_p0.png"), "https://cdn.example.com/5_p0.png");
    assert!(detail_visible(Some(true), false));
    assert!(detail_visible(None, false));
    assert!(!detail_visible(Some(false), false));
    assert!(detail_visible(Some(false), true));
}

#[test]
fn listing_defaults() {
    let s = list_settings(None, None, None, None, None, false).unwrap();
    assert_eq!((s.offset, s.limit, s.desc, s.sort, s.accessible), (0, 30, true, SortKey::Id, Some(true)));
}

#[test]
fn listing_caps_and_admin_filter() {
    let s = list_settings(Some(200_000), Some(500), Some("FALSE"), Some("popularity"), Some("false"), true).unwrap();
    assert_eq!((s.offset, s.limit, s.desc, s.sort, s.accessible), (100_000, 300, false, SortKey::Popularity, Some(false)));
    let s = list_settings(Some(10), Some(20), Some("True"), Some("width"), Some("maybe"), true).unwrap();
    assert_eq!((s.offset, s.limit, s.desc, s.sort, s.accessible), (10, 20, true, SortKey::Width, None));
    let s = list_settings(None, None, Some("yes"), None, Some("false"), false).unwrap();
    assert_eq!((s.desc, s.accessible), (false, Some(true)));
}

#[test]
fn listing_refuses_unknown_sort() {
    match list_settings(None, None, None, Some("colour"), None, false) {
        Err(AppError::BadRequest(m)) => assert_eq!(
            m,
            "Invalid sort_by 'colour'. Allowed: id, width, height, aspect_ratio, source_created_at, created_at, popularity, distance"
        ),
        other => panic!("unexpected {:?}", other),
    }
    assert_eq!(parse_sort_key(Some("distance")).unwrap(), SortKey::Distance);
    assert_eq!(parse_sort_key(None).unwrap(), SortKey::Id);
}

#[test]
fn size_bound_defaults() {
    assert_eq!(size_bounds(None, None, None, None), (0, i32::MAX, 0, i32::MAX));
    assert_eq!(size_bounds(Some(10), Some(20), Some(30), Some(40)), (10, 20, 30, 40));
}

#[test]
fn author_filters() {
    assert!(matches!(author_filter("42"), AuthorFilter::ById(42)));
    assert!(matches!(author_filter("-7"), AuthorFilter::ById(-7)));
    match author_filter("alice") {
        AuthorFilter::NameContains(n) => assert_eq!(n, "alice"),
        other => panic!("unexpected {:?}", other),
    }
    assert!(matches!(author_filter("99999999999"), AuthorFilter::NameContains(_)));
}

#[test]
fn tag_filters_and_grouping() {
    assert_eq!(tag_names("a,b,,c"), vec!["a", "b", "", "c"]);
    assert_eq!(tag_names(""), vec![""]);
    let tag = |id: i32, name: &str| TagInfo { id, name: name.to_string(), translated_name: None };
    let rows = vec![(1, tag(10, "sky")), (2, tag(11, "sea")), (1, tag(12, "cat"))];
    let got: Vec<i32> = tags_of(&rows, 1).iter().map(|t| t.id).collect();
    assert_eq!(got, vec![10, 12]);
    assert!(tags_of(&rows, 3).is_empty());
}

#[test]
fn tag_translation_only_fills_gaps() {
    assert_eq!(tag_translation_update(&None, Some("cat")), Some("cat".to_string()));
    assert_eq!(tag_translation_update(&Some("chat".to_string()), Some("cat")), None);
    assert_eq!(tag_translation_update(&None, None), None);
}

#[test]
fn rgb_inputs() {
    assert_eq!(parse_rgb(" 255, 0 ,12").unwrap(), (255, 0, 12));
    let err = |s: &str| match parse_rgb(s) {
        Err(AppError::BadRequest(m)) => m,
        other => panic!("unexpected {:?}", other),
    };
    assert_eq!(err("1,2"), "Invalid rgb format. Use rgb=r,g,b with three comma-separated values");
    assert_eq!(err("256,0,0"), "Invalid red value in rgb parameter");
    assert_eq!(err("1,x,3"), "Invalid green value in rgb parameter");
    assert_eq!(err("1,2,-3"), "Invalid blue value in rgb parameter");
}

#[test]
fn lab_inputs() {
    assert_eq!(lab_parts("50, -1.5 ,0").unwrap(), vec!["50", "-1.5", "0"]);
    match lab_parts("1,2,3,4") {
        Err(AppError::BadRequest(m)) => {
            assert_eq!(m, "Invalid lab format. Use lab=l,a,b with three comma-separated values")
        }
        other => panic!("unexpected {:?}", other),
    }
}

#[test]
fn color_search_options() {
    assert_eq!(color_mode(None), Some("primary"));
    assert_eq!(color_mode(Some("palette")), Some("palette"));
    assert_eq!(color_mode(Some("Palette")), None);
    assert_eq!(search_limit(None), 20);
    assert_eq!(search_limit(Some(7)), 7);
    assert_eq!(search_limit(Some(500)), 100);
}

#[test]
fn image_edits_validated() {
    assert!(validate_update(Some(JsonKind::Null), Some(JsonKind::Array), Some("ok")).is_ok());
    assert_eq!(bad_request(validate_update(Some(JsonKind::Number), None, None)), "accessible must be a boolean or null");
    assert_eq!(bad_request(validate_update(Some(JsonKind::Text), Some(JsonKind::Text), None)), "accessible must be a boolean or null");
    assert_eq!(bad_request(validate_update(None, Some(JsonKind::Bool), None)), "colors must be a JSON object or array");
    assert_eq!(bad_request(validate_update(None, None, Some(""))), "title must not be an empty string");
    let long = "a".repeat(1001);
    assert_eq!(bad_request(validate_update(None, None, Some(&long))), "title must not exceed 1000 characters");
    assert!(validate_update(None, None, Some(&"a".repeat(1000))).is_ok());
    // The limit counts bytes: 500 two-byte characters fit, 501 do not.
    assert!(validate_update(None, None, Some(&"é".repeat(500))).is_ok());
    assert_eq!(bad_request(validate_update(None, None, Some(&"é".repeat(501)))), "title must not exceed 1000 characters");
}

#[test]
fn error_answers() {
    assert_eq!(AppError::NotFound("image not found".into()).status_code(), 404);
    assert_eq!(AppError::Unauthorized.status_code(), 401);
    assert_eq!(AppError::Unauthorized.public_message(), "Could not validate credentials");
    assert_eq!(AppError::BadRequest("x".into()).public_message(), "x");
    let internal = AppError::Internal("db password leaked".into());
    assert_eq!(internal.status_code(), 500);
    assert_eq!(internal.public_message(), "Internal server error");
    assert!(internal.is_logged());
    assert!(!AppError::BadRequest("x".into()).is_logged());
}

#[test]
fn token_claims() {
    let c = Claims::for_user("admin", 1_700_000_000);
    assert_eq!((c.sub.as_str(), c.exp, c.iss.as_str(), c.aud.as_str()), ("admin", 1_700_000_000, "randimg", "randimg-api"));
    assert_eq!((TOKEN_ISSUER, TOKEN_AUDIENCE), ("randimg", "randimg-api"));
    assert_eq!(AuthUser::from_claims(c).username, "admin");
    let some = OptionalAuthUser::from_claims(Some(Claims::for_user("root", 1)));
    assert!(some.is_admin());
    assert_eq!(some.username.as_deref(), Some("root"));
    assert!(!OptionalAuthUser::from_claims(None).is_admin());
}

#[test]
fn pixiv_error_texts() {
    let e = PixivError::auth_credential("bad token", 3);
    assert!(e.is_auth_error());
    assert_eq!(e.credential_id(), Some(3));
    assert_eq!(e.message(), "Pixiv auth failed (credential 3): bad token");
    let e = PixivError::Auth { message: "expired".into(), credential_id: None };
    assert_eq!(e.message(), "Pixiv auth failed: expired");
    let e = PixivError::Request { message: "timeout".into(), operation: "illust_ranking".into() };
    assert_eq!(e.operation(), Some("illust_ranking"));
    assert_eq!(e.message(), "Pixiv illust_ranking request failed: timeout");
    let e = PixivError::Status { status: 404, reason: "Not Found".into(), operation: "illust_detail".into() };
    assert_eq!(e.message(), "Pixiv illust_detail returned error status: 404 Not Found");
    let e = PixivError::persistence("db down", -2);
    assert_eq!(e.credential_id(), Some(-2));
    assert_eq!(e.message(), "Failed to persist tokens for credential -2: db down");
    assert_eq!(PixivError::NoCredentials.message(), "No active Pixiv credentials found");
    let e = PixivError::from_string("missing proxy".to_string());
    assert!(!e.is_auth_error());
    assert_eq!(e.message(), "Invalid Pixiv configuration: missing proxy");
}

fn vars(v: &[(&str, &str)]) -> Vec<(String, String)> {
    v.iter().map(|(a, b)| (a.to_string(), b.to_string())).collect()
}

#[test]
fn config_refuses_placeholder_secret() {
    assert_eq!(AppConfig::from_vars(&Vec::new(), 8).err(), Some(ConfigError::DefaultSecretKey));
    assert_eq!(AppConfig::from_vars(&vars(&[("SECRET_KEY", "change-me")]), 8).err(), Some(ConfigError::DefaultSecretKey));
}

#[test]
fn config_defaults() {
    let c = AppConfig::from_vars(&vars(&[("SECRET_KEY", "s3cret")]), 8).unwrap();
    assert_eq!(c.secret_key, "s3cret");
    assert_eq!(c.jwt_expire_minutes, 60);
    assert_eq!(c.api_database_url, "postgres://localhost/randimg");
    assert!(matches!(&c.server_addr, BindAddr::Tcp(a) if a == "0.0.0.0:8000"));
    assert_eq!(c.pixiv_accept_lang, "zh-CN");
    assert_eq!(c.log_level, "randimg_core=info,tower_http=info");
    assert_eq!(c.color_worker_rayon_threads, 8);
    assert_eq!(c.worker_health_port, 8001);
    assert_eq!(c.task_max_retries, 3);
    assert_eq!(c.task_concurrency_download, 4);
    assert!(!c.log_json);
}

#[test]
fn config_reads_variables() {
    let c = AppConfig::from_vars(
        &vars(&[
            ("SECRET_KEY", "k"),
            ("SERVER_ADDR", "unix:///run/randimg.sock"),
            ("PIXIV_TIMEOUT_SECS", "abc"),
            ("TASK_MAX_RETRIES", "-1"),
            ("LOG_JSON", "1"),
            ("WORKER_HEALTH_PORT", "70000"),
            ("MAX_DISCOVER_HOPS", "+4"),
            ("SECRET_KEY", "ignored"),
        ]),
        2,
    )
    .unwrap();
    assert_eq!(c.secret_key, "k");
    assert!(matches!(&c.server_addr, BindAddr::Unix(p) if p == "/run/randimg.sock"));
    assert_eq!(c.pixiv_timeout_secs, 30);
    assert_eq!(c.task_max_retries, -1);
    assert!(c.log_json);
    assert_eq!(c.worker_health_port, 8001);
    assert_eq!(c.max_discover_hops, 4);
    let http = AppConfig::from_vars(&vars(&[("SECRET_KEY", "k"), ("SERVER_ADDR", "https://127.0.0.1:9000")]), 1).unwrap();
    assert!(matches!(&http.server_addr, BindAddr::Tcp(a) if a == "127.0.0.1:9000"));
}

#[test]
fn config_debug_redacts_secrets() {
    let c = AppConfig::from_vars(&vars(&[("SECRET_KEY", "k"), ("DOGECLOUD_SECRET_KEY", "d")]), 1).unwrap();
    let entries = c.debug_entries();
    let find = |name: &str| entries.iter().find(|(n, _)| *n == name).map(|(_, v)| v).unwrap();
    assert!(matches!(find("secret_key"), ConfigValue::Redacted));
    assert!(matches!(find("dogecloud_secret_key"), ConfigValue::Redacted));
    assert!(matches!(find("api_database_url"), ConfigValue::Redacted));
    assert!(matches!(find("image_dir"), ConfigValue::Text(t) if t == "./images"));
    assert!(matches!(find("task_max_retries"), ConfigValue::Signed(3)));
    assert!(matches!(find("log_json"), ConfigValue::Flag(false)));
    assert_eq!(entries[0].0, "api_database_url");
}

#[test]
fn worker_pool_sizes() {
    let c = AppConfig::from_vars(&vars(&[("SECRET_KEY", "k"), ("TASK_CONCURRENCY_UPLOAD", "9")]), 1).unwrap();
    let pools = c.worker_pools();
    assert_eq!(pools.len(), 7);
    assert_eq!(pools[0], ("crawl", 2));
    assert_eq!(pools[3], ("upload", 9));
    assert_eq!(pools[6], ("refresh_pixiv_token", 1));
}

#[test]
fn pixiv_errors_from_client_errors() {
    let e = PixivError::from_client(ClientErrorKind::Auth, "invalid_grant");
    assert!(e.is_auth_error());
    assert_eq!(e.credential_id(), None);
    assert_eq!(e.message(), "Pixiv auth failed: invalid_grant");
    let e = PixivError::from_client(ClientErrorKind::Status { status: 429, reason: "Too Many Requests".into() }, "x");
    assert_eq!(e.operation(), Some("unknown"));
    assert_eq!(e.message(), "Pixiv unknown returned error status: 429 Too Many Requests");
    let e = PixivError::from_client(ClientErrorKind::Other, "connection reset");
    assert_eq!(e.message(), "Pixiv unknown request failed: connection reset");
    assert_eq!(PixivError::request("user_illusts", "timeout").operation(), Some("user_illusts"));
    assert_eq!(PixivError::auth_from_source("bad", Some(9)).credential_id(), Some(9));
    assert_eq!(PixivError::status(500, "Internal Server Error", "illust_related").message(), "Pixiv illust_related returned error status: 500 Internal Server Error");
}

#[test]
fn image_edit_plans() {
    let p = plan_update(
        &FieldValue::Text("New".into()),
        &FieldValue::Null,
        &FieldValue::Bool(false),
        &FieldValue::Bool(true),
        &FieldValue::Null,
    );
    assert_eq!(p.title.as_deref(), Some("New"));
    assert_eq!(p.accessible, Some(None));
    assert_eq!(p.is_public, Some(false));
    assert_eq!(p.avatar_available, Some(Some(true)));
    assert!(p.set_colors);
    let p = plan_update(&FieldValue::Null, &FieldValue::Missing, &FieldValue::Null, &FieldValue::Other, &FieldValue::Missing);
    assert_eq!(p.title, None);
    assert_eq!(p.accessible, None);
    assert_eq!(p.is_public, None);
    assert_eq!(p.avatar_available, None);
    assert!(!p.set_colors);
}

#[test]
fn whitespace_matches_std() {
    for v in 0u32..=0x10FFFF {
        if let Some(c) = char::from_u32(v) {
            assert_eq!(randimg_core::text::is_whitespace(c), c.is_whitespace(), "U+{:04X}", v);
        }
    }
}

#[test]
fn rgb_channels_trim_unicode_spaces() {
    assert_eq!(parse_rgb("\u{3000}10,\t20\n,30\u{a0}").unwrap(), (10, 20, 30));
}
