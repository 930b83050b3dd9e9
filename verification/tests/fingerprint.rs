use randimg_core::fingerprint::{hash_task, FingerprintCache};

#[test]
fn new_task_returns_true() {
    let mut cache = FingerprintCache::new(300);
    assert!(cache.check_and_insert("crawl", r#"{"url":"https://a.com"}"#));
}

#[test]
fn duplicate_within_ttl_returns_false() {
    let mut cache = FingerprintCache::new(300);
    assert!(cache.check_and_insert("crawl", r#"{"url":"https://a.com"}"#));
    assert!(!cache.check_and_insert("crawl", r#"{"url":"https://a.com"}"#));
}

#[test]
fn different_params_returns_true() {
    let mut cache = FingerprintCache::new(300);
    assert!(cache.check_and_insert("crawl", r#"{"url":"https://a.com"}"#));
    assert!(cache.check_and_insert("crawl", r#"{"url":"https://b.com"}"#));
}

#[test]
fn different_type_same_params_returns_true() {
    let mut cache = FingerprintCache::new(300);
    assert!(cache.check_and_insert("crawl", "same"));
    assert!(cache.check_and_insert("download", "same"));
}

#[test]
fn expired_entry_returns_true() {
    // 1-second TTL; the second check comes two seconds (in nanoseconds) later.
    let mut cache = FingerprintCache::new(1);
    assert!(cache.check_and_insert_at("crawl", "x", 0));
    assert!(cache.check_and_insert_at("crawl", "x", 2_000_000_000));
}

#[test]
fn cache_grows_with_unique_entries() {
    let mut cache = FingerprintCache::new(300);
    assert_eq!(cache.len(), 0);
    cache.check_and_insert("a", "1");
    cache.check_and_insert("b", "2");
    assert_eq!(cache.len(), 2);
}

#[test]
fn entry_just_inside_ttl_is_refused() {
    let mut cache = FingerprintCache::new(1);
    assert!(cache.check_and_insert_at("crawl", "x", 10));
    assert!(!cache.check_and_insert_at("crawl", "x", 10 + 999_999_999));
    assert!(cache.check_and_insert_at("crawl", "x", 10 + 1_000_000_000));
}

#[test]
fn refusal_does_not_refresh_entry() {
    let mut cache = FingerprintCache::new(1);
    assert!(cache.check_and_insert_at("crawl", "x", 0));
    assert!(!cache.check_and_insert_at("crawl", "x", 500_000_000));
    // Still measured from the first acceptance.
    assert!(cache.check_and_insert_at("crawl", "x", 1_000_000_000));
}

#[test]
fn remove_forgets_fingerprint() {
    let mut cache = FingerprintCache::new(300);
    assert!(cache.is_empty());
    assert!(cache.check_and_insert("crawl", "x"));
    assert!(!cache.is_empty());
    cache.remove("crawl", "x");
    assert!(cache.is_empty());
    assert!(cache.check_and_insert("crawl", "x"));
}

#[test]
fn hash_task_is_stable_and_separates_fields() {
    assert_eq!(hash_task("crawl", "x"), hash_task("crawl", "x"));
    assert_ne!(hash_task("crawl", "x"), hash_task("download", "x"));
    assert_ne!(hash_task("ab", "c"), hash_task("a", "bc"));
}

#[test]
fn fingerprints_checked_directly() {
    let mut cache = FingerprintCache::new(3600);
    assert!(cache.check_fingerprint(42));
    assert!(!cache.check_fingerprint(42));
    assert!(cache.check_fingerprint(43));
    assert!(cache.check_fingerprint_at(7, 0));
    assert!(!cache.check_fingerprint_at(7, 3_599_999_999_999));
    assert!(cache.check_fingerprint_at(7, 3_600_000_000_000));
}
