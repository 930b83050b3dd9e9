//! Application settings, read from environment variables with defaults.
//!
//! The process environment is read by the caller, which hands over the
//! variables as name/value pairs; turning them into settings is done here.
use vstd::prelude::*;

use crate::text::{
    parse_signed, parse_signed_range, parse_unsigned, parse_unsigned_max, str_eq, strip_prefix,
    strip_prefix_spec,
};

verus! {

/// Parsed bind address — TCP or Unix socket.
///
/// Accepted formats: `0.0.0.0:8000` (plain TCP), `http://127.0.0.1:8000`
/// and `https://…` (TCP, scheme stripped), `unix:///run/randimg.sock`
/// (Unix domain socket). The TCP text is resolved to a socket address by
/// the caller.
#[derive(Debug)]
pub enum BindAddr {
    Tcp(String),
    Unix(String),
}

/// The bind address a setting names: a Unix socket path after `unix://`,
/// otherwise a TCP address with an `http://` or `https://` scheme removed.
pub open spec fn bind_addr_of(addr: Seq<char>) -> (bool, Seq<char>) {
    match strip_prefix_spec(addr, "unix://"@) {
        Some(path) => (true, path),
        None => match strip_prefix_spec(addr, "http://"@) {
            Some(rest) => (false, rest),
            None => match strip_prefix_spec(addr, "https://"@) {
                Some(rest) => (false, rest),
                None => (false, addr),
            },
        },
    }
}

/// Whether `b` is the bind address `(is_unix, text)`.
pub open spec fn bind_addr_is(b: BindAddr, expected: (bool, Seq<char>)) -> bool {
    match b {
        BindAddr::Tcp(t) => !expected.0 && t@ == expected.1,
        BindAddr::Unix(p) => expected.0 && p@ == expected.1,
    }
}

impl BindAddr {
    /// A copy of this address.
    pub fn copy(&self) -> (r: BindAddr)
        ensures
            r == *self,
    {
        match self {
            BindAddr::Tcp(t) => BindAddr::Tcp(t.clone()),
            BindAddr::Unix(p) => BindAddr::Unix(p.clone()),
        }
    }

    /// Reads a bind address setting.
    pub fn parse(addr: &str) -> (r: BindAddr)
        ensures
            bind_addr_is(r, bind_addr_of(addr@)),
    {
        if let Some(path) = strip_prefix(addr, "unix://") {
            return BindAddr::Unix(path);
        }
        if let Some(rest) = strip_prefix(addr, "http://") {
            return BindAddr::Tcp(rest);
        }
        if let Some(rest) = strip_prefix(addr, "https://") {
            return BindAddr::Tcp(rest);
        }
        BindAddr::Tcp(crate::text::owned(addr))
    }
}

/// The value of the first variable named `name`, if any.
pub open spec fn env_value(vars: Seq<(String, String)>, name: Seq<char>) -> Option<Seq<char>>
    decreases vars.len(),
{
    if vars.len() == 0 {
        None
    } else if vars[0].0@ == name {
        Some(vars[0].1@)
    } else {
        env_value(vars.drop_first(), name)
    }
}

/// A text setting: the variable's value, or `default` when it is unset.
pub open spec fn text_or(v: Option<Seq<char>>, default: Seq<char>) -> Seq<char> {
    match v {
        Some(t) => t,
        None => default,
    }
}

/// An unsigned setting: the variable's value when it parses as an integer
/// no larger than `max`, else `default`.
pub open spec fn unsigned_or(v: Option<Seq<char>>, max: int, default: int) -> int {
    match v {
        Some(t) => match parse_unsigned(t, max) {
            Some(x) => x,
            None => default,
        },
        None => default,
    }
}

/// A signed setting: the variable's value when it parses as an integer in
/// `min..=max`, else `default`.
pub open spec fn signed_or(v: Option<Seq<char>>, min: int, max: int, default: int) -> int {
    match v {
        Some(t) => match parse_signed(t, min, max) {
            Some(x) => x,
            None => default,
        },
        None => default,
    }
}

/// A flag setting that is on when the variable is one of `a` or `b`.
pub open spec fn flag_on(v: Option<Seq<char>>, a: Seq<char>, b: Seq<char>) -> bool {
    match v {
        Some(t) => t == a || t == b,
        None => false,
    }
}

fn lookup<'a>(vars: &'a Vec<(String, String)>, name: &str) -> (r: Option<&'a String>)
    ensures
        match env_value(vars@, name@) {
            Some(t) => r matches Some(s) && s@ == t,
            None => r is None,
        },
{
    let mut i: usize = 0;
    assert(vars@.subrange(0, vars@.len() as int) =~= vars@);
    while i < vars.len()
        invariant
            i <= vars.len(),
            env_value(vars@, name@) == env_value(vars@.subrange(i as int, vars@.len() as int), name@),
        decreases vars.len() - i,
    {
        let ghost rest = vars@.subrange(i as int, vars@.len() as int);
        assert(rest[0] == vars@[i as int]);
        assert(rest.drop_first() =~= vars@.subrange(i + 1, vars@.len() as int));
        if str_eq(vars[i].0.as_str(), name) {
            return Some(&vars[i].1);
        }
        i += 1;
    }
    assert(vars@.subrange(i as int, vars@.len() as int).len() == 0);
    None
}

fn text_setting(vars: &Vec<(String, String)>, name: &str, default: &str) -> (r: String)
    ensures
        r@ == text_or(env_value(vars@, name@), default@),
{
    match lookup(vars, name) {
        Some(v) => v.clone(),
        None => crate::text::owned(default),
    }
}

fn unsigned_setting(vars: &Vec<(String, String)>, name: &str, max: u64, default: u64) -> (r: u64)
    requires
        default <= max,
    ensures
        r == unsigned_or(env_value(vars@, name@), max as int, default as int),
        r <= max,
{
    match lookup(vars, name) {
        Some(v) => {
            let t = v.as_str();
            let p = parse_unsigned_max(t, max);
            proof {
                if let Some(x) = parse_unsigned(t@, max as int) {
                    crate::text::lemma_parse_unsigned_bound(t@, max as int);
                }
            }
            match p {
                Some(x) => x,
                None => default,
            }
        },
        None => default,
    }
}

fn signed_setting(vars: &Vec<(String, String)>, name: &str, min: i64, max: i64, default: i64) -> (r: i64)
    requires
        min <= 0 <= max,
        min <= default <= max,
    ensures
        r == signed_or(env_value(vars@, name@), min as int, max as int, default as int),
        min <= r <= max,
{
    match lookup(vars, name) {
        Some(v) => {
            let t = v.as_str();
            let p = parse_signed_range(t, min, max);
            proof {
                crate::text::lemma_parse_signed_bound(t@, min as int, max as int);
            }
            match p {
                Some(x) => x,
                None => default,
            }
        },
        None => default,
    }
}

fn flag_setting(vars: &Vec<(String, String)>, name: &str, a: &str, b: &str) -> (r: bool)
    ensures
        r == flag_on(env_value(vars@, name@), a@, b@),
{
    match lookup(vars, name) {
        Some(v) => str_eq(v.as_str(), a) || str_eq(v.as_str(), b),
        None => false,
    }
}

/// The application settings.
pub struct AppConfig {
    pub api_database_url: String,
    pub queue_database_url: String,
    pub secret_key: String,
    pub jwt_expire_minutes: u64,
    pub cdn_base_url: String,
    pub image_dir: String,
    pub server_addr: BindAddr,
    pub pixiv_refresh_token: String,
    pub pixiv_proxy: String,
    pub pixiv_accept_lang: String,
    pub pixiv_timeout_secs: u64,
    pub log_level: String,
    pub log_dir: String,
    pub log_json: bool,
    pub max_discover_hops: u32,
    pub discover_seed_limit: u64,
    pub dogecloud_access_key: String,
    pub dogecloud_secret_key: String,
    pub dogecloud_s3_bucket: String,
    pub dogecloud_s3_endpoint: String,
    pub color_worker_rayon_threads: usize,
    pub color_worker_standalone: bool,
    pub color_extract_k: usize,
    pub color_extract_max_iter: usize,
    pub color_extract_batch_size: usize,
    pub cors_origins: String,
    pub auth_max_retries: u32,
    pub auth_backoff_base_ms: u64,
    pub task_max_retries: i32,
    pub task_backoff_base: u32,
    pub task_poll_interval_ms: u64,
    pub task_default_timeout_secs: u64,
    pub task_dedup_ttl_secs: u64,
    pub drain_timeout_secs: u64,
    pub worker_health_port: u16,
    pub watchdog_check_interval_secs: u64,
    pub watchdog_stuck_timeout_secs: u64,
    pub task_cleanup_ttl_hours: u64,
    pub dead_letter_ttl_hours: u64,
    pub task_concurrency_crawl: u32,
    pub task_concurrency_download: u32,
    pub task_concurrency_color_extract: u32,
    pub task_concurrency_upload: u32,
    pub task_concurrency_accessibility_check: u32,
    pub task_concurrency_discover: u32,
    pub task_concurrency_refresh_pixiv_token: u32,
    pub task_concurrency_cleanup: u32,
}

/// Whether `c` holds the settings that the variables `vars` give, with
/// `parallelism` as the default number of color worker threads.
pub open spec fn settings_from(c: AppConfig, vars: Seq<(String, String)>, parallelism: usize) -> bool {
    &&& c.api_database_url@ == text_or(env_value(vars, "API_DATABASE_URL"@), "postgres://localhost/randimg"@)
    &&& c.queue_database_url@ == text_or(env_value(vars, "QUEUE_DATABASE_URL"@), "postgres://localhost/randimg_queue"@)
    &&& c.secret_key@ == text_or(env_value(vars, "SECRET_KEY"@), "change-me"@)
    &&& c.jwt_expire_minutes == unsigned_or(env_value(vars, "JWT_EXPIRE_MINUTES"@), u64::MAX as int, 60 as int)
    &&& c.cdn_base_url@ == text_or(env_value(vars, "CDN_BASE_URL"@), "https://cdn.example.com/"@)
    &&& c.image_dir@ == text_or(env_value(vars, "IMAGE_DIR"@), "./images"@)
    &&& bind_addr_is(c.server_addr, bind_addr_of(text_or(env_value(vars, "SERVER_ADDR"@), "0.0.0.0:8000"@)))
    &&& c.pixiv_refresh_token@ == text_or(env_value(vars, "PIXIV_REFRESH_TOKEN"@), ""@)
    &&& c.pixiv_proxy@ == text_or(env_value(vars, "PIXIV_PROXY"@), ""@)
    &&& c.pixiv_accept_lang@ == text_or(env_value(vars, "PIXIV_ACCEPT_LANG"@), "zh-CN"@)
    &&& c.pixiv_timeout_secs == unsigned_or(env_value(vars, "PIXIV_TIMEOUT_SECS"@), u64::MAX as int, 30 as int)
    &&& c.log_level@ == text_or(env_value(vars, "RUST_LOG"@), "randimg_core=info,tower_http=info"@)
    &&& c.log_dir@ == text_or(env_value(vars, "LOG_DIR"@), "./logs"@)
    &&& c.log_json == flag_on(env_value(vars, "LOG_JSON"@), "true"@, "1"@)
    &&& c.max_discover_hops == unsigned_or(env_value(vars, "MAX_DISCOVER_HOPS"@), u32::MAX as int, 3 as int)
    &&& c.discover_seed_limit == unsigned_or(env_value(vars, "DISCOVER_SEED_LIMIT"@), u64::MAX as int, 5 as int)
    &&& c.dogecloud_access_key@ == text_or(env_value(vars, "DOGECLOUD_ACCESS_KEY"@), ""@)
    &&& c.dogecloud_secret_key@ == text_or(env_value(vars, "DOGECLOUD_SECRET_KEY"@), ""@)
    &&& c.dogecloud_s3_bucket@ == text_or(env_value(vars, "DOGECLOUD_S3_BUCKET"@), ""@)
    &&& c.dogecloud_s3_endpoint@ == text_or(env_value(vars, "DOGECLOUD_S3_ENDPOINT"@), ""@)
    &&& c.color_worker_rayon_threads == unsigned_or(env_value(vars, "COLOR_WORKER_RAYON_THREADS"@), usize::MAX as int, parallelism as int)
    &&& c.color_worker_standalone == flag_on(env_value(vars, "COLOR_WORKER_STANDALONE"@), "1"@, "true"@)
    &&& c.color_extract_k == unsigned_or(env_value(vars, "COLOR_EXTRACT_K"@), usize::MAX as int, 10 as int)
    &&& c.color_extract_max_iter == unsigned_or(env_value(vars, "COLOR_EXTRACT_MAX_ITER"@), usize::MAX as int, 50 as int)
    &&& c.color_extract_batch_size == unsigned_or(env_value(vars, "COLOR_EXTRACT_BATCH_SIZE"@), usize::MAX as int, 2048 as int)
    &&& c.cors_origins@ == text_or(env_value(vars, "CORS_ORIGINS"@), "*"@)
    &&& c.auth_max_retries == unsigned_or(env_value(vars, "AUTH_MAX_RETRIES"@), u32::MAX as int, 3 as int)
    &&& c.auth_backoff_base_ms == unsigned_or(env_value(vars, "AUTH_BACKOFF_BASE_MS"@), u64::MAX as int, 2000 as int)
    &&& c.task_max_retries == signed_or(env_value(vars, "TASK_MAX_RETRIES"@), i32::MIN as int, i32::MAX as int, 3)
    &&& c.task_backoff_base == unsigned_or(env_value(vars, "TASK_BACKOFF_BASE"@), u32::MAX as int, 2 as int)
    &&& c.task_poll_interval_ms == unsigned_or(env_value(vars, "TASK_POLL_INTERVAL_MS"@), u64::MAX as int, 500 as int)
    &&& c.task_default_timeout_secs == unsigned_or(env_value(vars, "TASK_DEFAULT_TIMEOUT_SECS"@), u64::MAX as int, 300 as int)
    &&& c.task_dedup_ttl_secs == unsigned_or(env_value(vars, "TASK_DEDUP_TTL_SECS"@), u64::MAX as int, 300 as int)
    &&& c.drain_timeout_secs == unsigned_or(env_value(vars, "DRAIN_TIMEOUT_SECS"@), u64::MAX as int, 30 as int)
    &&& c.worker_health_port == unsigned_or(env_value(vars, "WORKER_HEALTH_PORT"@), u16::MAX as int, 8001 as int)
    &&& c.watchdog_check_interval_secs == unsigned_or(env_value(vars, "WATCHDOG_CHECK_INTERVAL_SECS"@), u64::MAX as int, 60 as int)
    &&& c.watchdog_stuck_timeout_secs == unsigned_or(env_value(vars, "WATCHDOG_STUCK_TIMEOUT_SECS"@), u64::MAX as int, 600 as int)
    &&& c.task_cleanup_ttl_hours == unsigned_or(env_value(vars, "TASK_CLEANUP_TTL_HOURS"@), u64::MAX as int, 168 as int)
    &&& c.dead_letter_ttl_hours == unsigned_or(env_value(vars, "DEAD_LETTER_TTL_HOURS"@), u64::MAX as int, 720 as int)
    &&& c.task_concurrency_crawl == unsigned_or(env_value(vars, "TASK_CONCURRENCY_CRAWL"@), u32::MAX as int, 2 as int)
    &&& c.task_concurrency_download == unsigned_or(env_value(vars, "TASK_CONCURRENCY_DOWNLOAD"@), u32::MAX as int, 4 as int)
    &&& c.task_concurrency_color_extract == unsigned_or(env_value(vars, "TASK_CONCURRENCY_COLOR_EXTRACT"@), u32::MAX as int, 2 as int)
    &&& c.task_concurrency_upload == unsigned_or(env_value(vars, "TASK_CONCURRENCY_UPLOAD"@), u32::MAX as int, 2 as int)
    &&& c.task_concurrency_accessibility_check == unsigned_or(env_value(vars, "TASK_CONCURRENCY_ACCESSIBILITY_CHECK"@), u32::MAX as int, 2 as int)
    &&& c.task_concurrency_discover == unsigned_or(env_value(vars, "TASK_CONCURRENCY_DISCOVER"@), u32::MAX as int, 1 as int)
    &&& c.task_concurrency_refresh_pixiv_token == unsigned_or(env_value(vars, "TASK_CONCURRENCY_REFRESH_PIXIV_TOKEN"@), u32::MAX as int, 1 as int)
    &&& c.task_concurrency_cleanup == unsigned_or(env_value(vars, "TASK_CONCURRENCY_CLEANUP"@), u32::MAX as int, 1 as int)
}

/// Why the settings were refused.
#[derive(Debug, PartialEq, Eq, Structural)]
pub enum ConfigError {
    /// `SECRET_KEY` is unset or left at the placeholder `change-me`.
    DefaultSecretKey,
}

/// The secret key in force for the variables `vars`.
pub open spec fn secret_key_of(vars: Seq<(String, String)>) -> Seq<char> {
    text_or(env_value(vars, "SECRET_KEY"@), "change-me"@)
}

impl AppConfig {
    /// Reads the settings from the variables `vars` (name and value pairs,
    /// the first of a name counting); `parallelism` is the default number
    /// of color worker threads. A missing or unparsable number takes its
    /// default. A secret key left at the placeholder `change-me` is refused.
    pub fn from_vars(vars: &Vec<(String, String)>, parallelism: usize) -> (r: Result<AppConfig, ConfigError>)
        ensures
            match r {
                Ok(c) => secret_key_of(vars@) != "change-me"@ && settings_from(c, vars@, parallelism),
                Err(e) => secret_key_of(vars@) == "change-me"@ && e == ConfigError::DefaultSecretKey,
            },
    {
        let secret_key = text_setting(vars, "SECRET_KEY", "change-me");
        if str_eq(secret_key.as_str(), "change-me") {
            return Err(ConfigError::DefaultSecretKey);
        }
        let server_text = text_setting(vars, "SERVER_ADDR", "0.0.0.0:8000");
        let c = AppConfig {
            api_database_url: text_setting(vars, "API_DATABASE_URL", "postgres://localhost/randimg"),
            queue_database_url: text_setting(vars, "QUEUE_DATABASE_URL", "postgres://localhost/randimg_queue"),
            secret_key,
            jwt_expire_minutes: unsigned_setting(vars, "JWT_EXPIRE_MINUTES", u64::MAX, 60),
            cdn_base_url: text_setting(vars, "CDN_BASE_URL", "https://cdn.example.com/"),
            image_dir: text_setting(vars, "IMAGE_DIR", "./images"),
            server_addr: BindAddr::parse(server_text.as_str()),
            pixiv_refresh_token: text_setting(vars, "PIXIV_REFRESH_TOKEN", ""),
            pixiv_proxy: text_setting(vars, "PIXIV_PROXY", ""),
            pixiv_accept_lang: text_setting(vars, "PIXIV_ACCEPT_LANG", "zh-CN"),
            pixiv_timeout_secs: unsigned_setting(vars, "PIXIV_TIMEOUT_SECS", u64::MAX, 30),
            log_level: text_setting(vars, "RUST_LOG", "randimg_core=info,tower_http=info"),
            log_dir: text_setting(vars, "LOG_DIR", "./logs"),
            log_json: flag_setting(vars, "LOG_JSON", "true", "1"),
            max_discover_hops: unsigned_setting(vars, "MAX_DISCOVER_HOPS", u32::MAX as u64, 3) as u32,
            discover_seed_limit: unsigned_setting(vars, "DISCOVER_SEED_LIMIT", u64::MAX, 5),
            dogecloud_access_key: text_setting(vars, "DOGECLOUD_ACCESS_KEY", ""),
            dogecloud_secret_key: text_setting(vars, "DOGECLOUD_SECRET_KEY", ""),
            dogecloud_s3_bucket: text_setting(vars, "DOGECLOUD_S3_BUCKET", ""),
            dogecloud_s3_endpoint: text_setting(vars, "DOGECLOUD_S3_ENDPOINT", ""),
            color_worker_rayon_threads: unsigned_setting(vars, "COLOR_WORKER_RAYON_THREADS", usize::MAX as u64, parallelism as u64) as usize,
            color_worker_standalone: flag_setting(vars, "COLOR_WORKER_STANDALONE", "1", "true"),
            color_extract_k: unsigned_setting(vars, "COLOR_EXTRACT_K", usize::MAX as u64, 10) as usize,
            color_extract_max_iter: unsigned_setting(vars, "COLOR_EXTRACT_MAX_ITER", usize::MAX as u64, 50) as usize,
            color_extract_batch_size: unsigned_setting(vars, "COLOR_EXTRACT_BATCH_SIZE", usize::MAX as u64, 2048) as usize,
            cors_origins: text_setting(vars, "CORS_ORIGINS", "*"),
            auth_max_retries: unsigned_setting(vars, "AUTH_MAX_RETRIES", u32::MAX as u64, 3) as u32,
            auth_backoff_base_ms: unsigned_setting(vars, "AUTH_BACKOFF_BASE_MS", u64::MAX, 2000),
            task_max_retries: signed_setting(vars, "TASK_MAX_RETRIES", i32::MIN as i64, i32::MAX as i64, 3) as i32,
            task_backoff_base: unsigned_setting(vars, "TASK_BACKOFF_BASE", u32::MAX as u64, 2) as u32,
            task_poll_interval_ms: unsigned_setting(vars, "TASK_POLL_INTERVAL_MS", u64::MAX, 500),
            task_default_timeout_secs: unsigned_setting(vars, "TASK_DEFAULT_TIMEOUT_SECS", u64::MAX, 300),
            task_dedup_ttl_secs: unsigned_setting(vars, "TASK_DEDUP_TTL_SECS", u64::MAX, 300),
            drain_timeout_secs: unsigned_setting(vars, "DRAIN_TIMEOUT_SECS", u64::MAX, 30),
            worker_health_port: unsigned_setting(vars, "WORKER_HEALTH_PORT", u16::MAX as u64, 8001) as u16,
            watchdog_check_interval_secs: unsigned_setting(vars, "WATCHDOG_CHECK_INTERVAL_SECS", u64::MAX, 60),
            watchdog_stuck_timeout_secs: unsigned_setting(vars, "WATCHDOG_STUCK_TIMEOUT_SECS", u64::MAX, 600),
            task_cleanup_ttl_hours: unsigned_setting(vars, "TASK_CLEANUP_TTL_HOURS", u64::MAX, 168),
            dead_letter_ttl_hours: unsigned_setting(vars, "DEAD_LETTER_TTL_HOURS", u64::MAX, 720),
            task_concurrency_crawl: unsigned_setting(vars, "TASK_CONCURRENCY_CRAWL", u32::MAX as u64, 2) as u32,
            task_concurrency_download: unsigned_setting(vars, "TASK_CONCURRENCY_DOWNLOAD", u32::MAX as u64, 4) as u32,
            task_concurrency_color_extract: unsigned_setting(vars, "TASK_CONCURRENCY_COLOR_EXTRACT", u32::MAX as u64, 2) as u32,
            task_concurrency_upload: unsigned_setting(vars, "TASK_CONCURRENCY_UPLOAD", u32::MAX as u64, 2) as u32,
            task_concurrency_accessibility_check: unsigned_setting(vars, "TASK_CONCURRENCY_ACCESSIBILITY_CHECK", u32::MAX as u64, 2) as u32,
            task_concurrency_discover: unsigned_setting(vars, "TASK_CONCURRENCY_DISCOVER", u32::MAX as u64, 1) as u32,
            task_concurrency_refresh_pixiv_token: unsigned_setting(vars, "TASK_CONCURRENCY_REFRESH_PIXIV_TOKEN", u32::MAX as u64, 1) as u32,
            task_concurrency_cleanup: unsigned_setting(vars, "TASK_CONCURRENCY_CLEANUP", u32::MAX as u64, 1) as u32,
        };
        Ok(c)
    }

    /// The settings as named entries, in declaration order, for diagnostic
    /// output: connection strings, keys and tokens are redacted.
    pub fn debug_entries(&self) -> (r: Vec<(&'static str, ConfigValue)>)
        ensures
            r@.len() == debug_names().len(),
            forall|i: int| 0 <= i < r@.len() ==> (#[trigger] r@[i]).0@ == debug_names()[i] && r@[i].1 == debug_values(*self)[i],
    {
        let mut r: Vec<(&'static str, ConfigValue)> = Vec::new();
        r.push(("api_database_url", ConfigValue::Redacted));
        r.push(("queue_database_url", ConfigValue::Redacted));
        r.push(("secret_key", ConfigValue::Redacted));
        r.push(("jwt_expire_minutes", ConfigValue::Unsigned(self.jwt_expire_minutes as u64)));
        r.push(("cdn_base_url", ConfigValue::Text(self.cdn_base_url.clone())));
        r.push(("image_dir", ConfigValue::Text(self.image_dir.clone())));
        r.push(("server_addr", ConfigValue::Bind(self.server_addr.copy())));
        r.push(("pixiv_refresh_token", ConfigValue::Redacted));
        r.push(("pixiv_proxy", ConfigValue::Text(self.pixiv_proxy.clone())));
        r.push(("pixiv_accept_lang", ConfigValue::Text(self.pixiv_accept_lang.clone())));
        r.push(("pixiv_timeout_secs", ConfigValue::Unsigned(self.pixiv_timeout_secs as u64)));
        r.push(("log_level", ConfigValue::Text(self.log_level.clone())));
        r.push(("log_dir", ConfigValue::Text(self.log_dir.clone())));
        r.push(("log_json", ConfigValue::Flag(self.log_json)));
        r.push(("max_discover_hops", ConfigValue::Unsigned(self.max_discover_hops as u64)));
        r.push(("discover_seed_limit", ConfigValue::Unsigned(self.discover_seed_limit as u64)));
        r.push(("dogecloud_access_key", ConfigValue::Redacted));
        r.push(("dogecloud_secret_key", ConfigValue::Redacted));
        r.push(("dogecloud_s3_bucket", ConfigValue::Text(self.dogecloud_s3_bucket.clone())));
        r.push(("dogecloud_s3_endpoint", ConfigValue::Text(self.dogecloud_s3_endpoint.clone())));
        r.push(("color_worker_rayon_threads", ConfigValue::Unsigned(self.color_worker_rayon_threads as u64)));
        r.push(("color_worker_standalone", ConfigValue::Flag(self.color_worker_standalone)));
        r.push(("color_extract_k", ConfigValue::Unsigned(self.color_extract_k as u64)));
        r.push(("color_extract_max_iter", ConfigValue::Unsigned(self.color_extract_max_iter as u64)));
        r.push(("color_extract_batch_size", ConfigValue::Unsigned(self.color_extract_batch_size as u64)));
        r.push(("cors_origins", ConfigValue::Text(self.cors_origins.clone())));
        r.push(("drain_timeout_secs", ConfigValue::Unsigned(self.drain_timeout_secs as u64)));
        r.push(("worker_health_port", ConfigValue::Unsigned(self.worker_health_port as u64)));
        r.push(("auth_max_retries", ConfigValue::Unsigned(self.auth_max_retries as u64)));
        r.push(("auth_backoff_base_ms", ConfigValue::Unsigned(self.auth_backoff_base_ms as u64)));
        r.push(("task_max_retries", ConfigValue::Signed(self.task_max_retries as i64)));
        r.push(("task_backoff_base", ConfigValue::Unsigned(self.task_backoff_base as u64)));
        r.push(("task_poll_interval_ms", ConfigValue::Unsigned(self.task_poll_interval_ms as u64)));
        r.push(("task_default_timeout_secs", ConfigValue::Unsigned(self.task_default_timeout_secs as u64)));
        r.push(("task_dedup_ttl_secs", ConfigValue::Unsigned(self.task_dedup_ttl_secs as u64)));
        r.push(("task_cleanup_ttl_hours", ConfigValue::Unsigned(self.task_cleanup_ttl_hours as u64)));
        r.push(("dead_letter_ttl_hours", ConfigValue::Unsigned(self.dead_letter_ttl_hours as u64)));
        r.push(("watchdog_check_interval_secs", ConfigValue::Unsigned(self.watchdog_check_interval_secs as u64)));
        r.push(("watchdog_stuck_timeout_secs", ConfigValue::Unsigned(self.watchdog_stuck_timeout_secs as u64)));
        r.push(("task_concurrency_crawl", ConfigValue::Unsigned(self.task_concurrency_crawl as u64)));
        r.push(("task_concurrency_download", ConfigValue::Unsigned(self.task_concurrency_download as u64)));
        r.push(("task_concurrency_color_extract", ConfigValue::Unsigned(self.task_concurrency_color_extract as u64)));
        r.push(("task_concurrency_upload", ConfigValue::Unsigned(self.task_concurrency_upload as u64)));
        r.push(("task_concurrency_accessibility_check", ConfigValue::Unsigned(self.task_concurrency_accessibility_check as u64)));
        r.push(("task_concurrency_discover", ConfigValue::Unsigned(self.task_concurrency_discover as u64)));
        r.push(("task_concurrency_refresh_pixiv_token", ConfigValue::Unsigned(self.task_concurrency_refresh_pixiv_token as u64)));
        r.push(("task_concurrency_cleanup", ConfigValue::Unsigned(self.task_concurrency_cleanup as u64)));
        assert(r@ =~= seq![
            ("api_database_url", ConfigValue::Redacted),
            ("queue_database_url", ConfigValue::Redacted),
            ("secret_key", ConfigValue::Redacted),
            ("jwt_expire_minutes", ConfigValue::Unsigned(self.jwt_expire_minutes as u64)),
            ("cdn_base_url", ConfigValue::Text(self.cdn_base_url)),
            ("image_dir", ConfigValue::Text(self.image_dir)),
            ("server_addr", ConfigValue::Bind(self.server_addr)),
            ("pixiv_refresh_token", ConfigValue::Redacted),
            ("pixiv_proxy", ConfigValue::Text(self.pixiv_proxy)),
            ("pixiv_accept_lang", ConfigValue::Text(self.pixiv_accept_lang)),
            ("pixiv_timeout_secs", ConfigValue::Unsigned(self.pixiv_timeout_secs as u64)),
            ("log_level", ConfigValue::Text(self.log_level)),
            ("log_dir", ConfigValue::Text(self.log_dir)),
            ("log_json", ConfigValue::Flag(self.log_json)),
            ("max_discover_hops", ConfigValue::Unsigned(self.max_discover_hops as u64)),
            ("discover_seed_limit", ConfigValue::Unsigned(self.discover_seed_limit as u64)),
            ("dogecloud_access_key", ConfigValue::Redacted),
            ("dogecloud_secret_key", ConfigValue::Redacted),
            ("dogecloud_s3_bucket", ConfigValue::Text(self.dogecloud_s3_bucket)),
            ("dogecloud_s3_endpoint", ConfigValue::Text(self.dogecloud_s3_endpoint)),
            ("color_worker_rayon_threads", ConfigValue::Unsigned(self.color_worker_rayon_threads as u64)),
            ("color_worker_standalone", ConfigValue::Flag(self.color_worker_standalone)),
            ("color_extract_k", ConfigValue::Unsigned(self.color_extract_k as u64)),
            ("color_extract_max_iter", ConfigValue::Unsigned(self.color_extract_max_iter as u64)),
            ("color_extract_batch_size", ConfigValue::Unsigned(self.color_extract_batch_size as u64)),
            ("cors_origins", ConfigValue::Text(self.cors_origins)),
            ("drain_timeout_secs", ConfigValue::Unsigned(self.drain_timeout_secs as u64)),
            ("worker_health_port", ConfigValue::Unsigned(self.worker_health_port as u64)),
            ("auth_max_retries", ConfigValue::Unsigned(self.auth_max_retries as u64)),
            ("auth_backoff_base_ms", ConfigValue::Unsigned(self.auth_backoff_base_ms as u64)),
            ("task_max_retries", ConfigValue::Signed(self.task_max_retries as i64)),
            ("task_backoff_base", ConfigValue::Unsigned(self.task_backoff_base as u64)),
            ("task_poll_interval_ms", ConfigValue::Unsigned(self.task_poll_interval_ms as u64)),
            ("task_default_timeout_secs", ConfigValue::Unsigned(self.task_default_timeout_secs as u64)),
            ("task_dedup_ttl_secs", ConfigValue::Unsigned(self.task_dedup_ttl_secs as u64)),
            ("task_cleanup_ttl_hours", ConfigValue::Unsigned(self.task_cleanup_ttl_hours as u64)),
            ("dead_letter_ttl_hours", ConfigValue::Unsigned(self.dead_letter_ttl_hours as u64)),
            ("watchdog_check_interval_secs", ConfigValue::Unsigned(self.watchdog_check_interval_secs as u64)),
            ("watchdog_stuck_timeout_secs", ConfigValue::Unsigned(self.watchdog_stuck_timeout_secs as u64)),
            ("task_concurrency_crawl", ConfigValue::Unsigned(self.task_concurrency_crawl as u64)),
            ("task_concurrency_download", ConfigValue::Unsigned(self.task_concurrency_download as u64)),
            ("task_concurrency_color_extract", ConfigValue::Unsigned(self.task_concurrency_color_extract as u64)),
            ("task_concurrency_upload", ConfigValue::Unsigned(self.task_concurrency_upload as u64)),
            ("task_concurrency_accessibility_check", ConfigValue::Unsigned(self.task_concurrency_accessibility_check as u64)),
            ("task_concurrency_discover", ConfigValue::Unsigned(self.task_concurrency_discover as u64)),
            ("task_concurrency_refresh_pixiv_token", ConfigValue::Unsigned(self.task_concurrency_refresh_pixiv_token as u64)),
            ("task_concurrency_cleanup", ConfigValue::Unsigned(self.task_concurrency_cleanup as u64)),
        ]);
        r
    }
}

impl AppConfig {
    /// The worker pools started for the queue, each a task type with its
    /// number of workers; cleanup runs on its own schedule and gets none.
    pub fn worker_pools(&self) -> (r: Vec<(&'static str, u32)>)
        ensures
            r@.len() == 7,
            r@[0].0@ == "crawl"@ && r@[0].1 == self.task_concurrency_crawl,
            r@[1].0@ == "download"@ && r@[1].1 == self.task_concurrency_download,
            r@[2].0@ == "color_extract"@ && r@[2].1 == self.task_concurrency_color_extract,
            r@[3].0@ == "upload"@ && r@[3].1 == self.task_concurrency_upload,
            r@[4].0@ == "accessibility_check"@ && r@[4].1 == self.task_concurrency_accessibility_check,
            r@[5].0@ == "discover"@ && r@[5].1 == self.task_concurrency_discover,
            r@[6].0@ == "refresh_pixiv_token"@ && r@[6].1 == self.task_concurrency_refresh_pixiv_token,
    {
        let mut r: Vec<(&'static str, u32)> = Vec::new();
        r.push(("crawl", self.task_concurrency_crawl));
        r.push(("download", self.task_concurrency_download));
        r.push(("color_extract", self.task_concurrency_color_extract));
        r.push(("upload", self.task_concurrency_upload));
        r.push(("accessibility_check", self.task_concurrency_accessibility_check));
        r.push(("discover", self.task_concurrency_discover));
        r.push(("refresh_pixiv_token", self.task_concurrency_refresh_pixiv_token));
        r
    }
}

/// One setting as shown in diagnostic output.
#[derive(Debug)]
pub enum ConfigValue {
    Redacted,
    Text(String),
    Unsigned(u64),
    Signed(i64),
    Flag(bool),
    Bind(BindAddr),
}

/// The names of the settings in diagnostic output, in order.
pub open spec fn debug_names() -> Seq<Seq<char>> {
    seq![
        "api_database_url"@,
        "queue_database_url"@,
        "secret_key"@,
        "jwt_expire_minutes"@,
        "cdn_base_url"@,
        "image_dir"@,
        "server_addr"@,
        "pixiv_refresh_token"@,
        "pixiv_proxy"@,
        "pixiv_accept_lang"@,
        "pixiv_timeout_secs"@,
        "log_level"@,
        "log_dir"@,
        "log_json"@,
        "max_discover_hops"@,
        "discover_seed_limit"@,
        "dogecloud_access_key"@,
        "dogecloud_secret_key"@,
        "dogecloud_s3_bucket"@,
        "dogecloud_s3_endpoint"@,
        "color_worker_rayon_threads"@,
        "color_worker_standalone"@,
        "color_extract_k"@,
        "color_extract_max_iter"@,
        "color_extract_batch_size"@,
        "cors_origins"@,
        "drain_timeout_secs"@,
        "worker_health_port"@,
        "auth_max_retries"@,
        "auth_backoff_base_ms"@,
        "task_max_retries"@,
        "task_backoff_base"@,
        "task_poll_interval_ms"@,
        "task_default_timeout_secs"@,
        "task_dedup_ttl_secs"@,
        "task_cleanup_ttl_hours"@,
        "dead_letter_ttl_hours"@,
        "watchdog_check_interval_secs"@,
        "watchdog_stuck_timeout_secs"@,
        "task_concurrency_crawl"@,
        "task_concurrency_download"@,
        "task_concurrency_color_extract"@,
        "task_concurrency_upload"@,
        "task_concurrency_accessibility_check"@,
        "task_concurrency_discover"@,
        "task_concurrency_refresh_pixiv_token"@,
        "task_concurrency_cleanup"@,
    ]
}

/// The values of the settings of `c` in diagnostic output, in order:
/// connection strings, keys and tokens are redacted.
pub open spec fn debug_values(c: AppConfig) -> Seq<ConfigValue> {
    seq![
        ConfigValue::Redacted,
        ConfigValue::Redacted,
        ConfigValue::Redacted,
        ConfigValue::Unsigned(c.jwt_expire_minutes as u64),
        ConfigValue::Text(c.cdn_base_url),
        ConfigValue::Text(c.image_dir),
        ConfigValue::Bind(c.server_addr),
        ConfigValue::Redacted,
        ConfigValue::Text(c.pixiv_proxy),
        ConfigValue::Text(c.pixiv_accept_lang),
        ConfigValue::Unsigned(c.pixiv_timeout_secs as u64),
        ConfigValue::Text(c.log_level),
        ConfigValue::Text(c.log_dir),
        ConfigValue::Flag(c.log_json),
        ConfigValue::Unsigned(c.max_discover_hops as u64),
        ConfigValue::Unsigned(c.discover_seed_limit as u64),
        ConfigValue::Redacted,
        ConfigValue::Redacted,
        ConfigValue::Text(c.dogecloud_s3_bucket),
        ConfigValue::Text(c.dogecloud_s3_endpoint),
        ConfigValue::Unsigned(c.color_worker_rayon_threads as u64),
        ConfigValue::Flag(c.color_worker_standalone),
        ConfigValue::Unsigned(c.color_extract_k as u64),
        ConfigValue::Unsigned(c.color_extract_max_iter as u64),
        ConfigValue::Unsigned(c.color_extract_batch_size as u64),
        ConfigValue::Text(c.cors_origins),
        ConfigValue::Unsigned(c.drain_timeout_secs as u64),
        ConfigValue::Unsigned(c.worker_health_port as u64),
        ConfigValue::Unsigned(c.auth_max_retries as u64),
        ConfigValue::Unsigned(c.auth_backoff_base_ms as u64),
        ConfigValue::Signed(c.task_max_retries as i64),
        ConfigValue::Unsigned(c.task_backoff_base as u64),
        ConfigValue::Unsigned(c.task_poll_interval_ms as u64),
        ConfigValue::Unsigned(c.task_default_timeout_secs as u64),
        ConfigValue::Unsigned(c.task_dedup_ttl_secs as u64),
        ConfigValue::Unsigned(c.task_cleanup_ttl_hours as u64),
        ConfigValue::Unsigned(c.dead_letter_ttl_hours as u64),
        ConfigValue::Unsigned(c.watchdog_check_interval_secs as u64),
        ConfigValue::Unsigned(c.watchdog_stuck_timeout_secs as u64),
        ConfigValue::Unsigned(c.task_concurrency_crawl as u64),
        ConfigValue::Unsigned(c.task_concurrency_download as u64),
        ConfigValue::Unsigned(c.task_concurrency_color_extract as u64),
        ConfigValue::Unsigned(c.task_concurrency_upload as u64),
        ConfigValue::Unsigned(c.task_concurrency_accessibility_check as u64),
        ConfigValue::Unsigned(c.task_concurrency_discover as u64),
        ConfigValue::Unsigned(c.task_concurrency_refresh_pixiv_token as u64),
        ConfigValue::Unsigned(c.task_concurrency_cleanup as u64),
    ]
}

/// The settings that are never shown.
pub open spec fn is_secret_setting(name: Seq<char>) -> bool {
    name == "api_database_url"@
        || name == "dogecloud_access_key"@
        || name == "dogecloud_secret_key"@
        || name == "pixiv_refresh_token"@
        || name == "queue_database_url"@
        || name == "secret_key"@
}

/// Diagnostic output never shows a connection string, key or token: every
/// entry named after one is redacted.
pub proof fn law_secrets_redacted(c: AppConfig, i: int)
    requires
        0 <= i < debug_names().len(),
        is_secret_setting(debug_names()[i]),
    ensures
        debug_values(c)[i] is Redacted,
{
    reveal_strlit("api_database_url");
    reveal_strlit("queue_database_url");
    reveal_strlit("secret_key");
    reveal_strlit("jwt_expire_minutes");
    reveal_strlit("cdn_base_url");
    reveal_strlit("image_dir");
    reveal_strlit("server_addr");
    reveal_strlit("pixiv_refresh_token");
    reveal_strlit("pixiv_proxy");
    reveal_strlit("pixiv_accept_lang");
    reveal_strlit("pixiv_timeout_secs");
    reveal_strlit("log_level");
    reveal_strlit("log_dir");
    reveal_strlit("log_json");
    reveal_strlit("max_discover_hops");
    reveal_strlit("discover_seed_limit");
    reveal_strlit("dogecloud_access_key");
    reveal_strlit("dogecloud_secret_key");
    reveal_strlit("dogecloud_s3_bucket");
    reveal_strlit("dogecloud_s3_endpoint");
    reveal_strlit("color_worker_rayon_threads");
    reveal_strlit("color_worker_standalone");
    reveal_strlit("color_extract_k");
    reveal_strlit("color_extract_max_iter");
    reveal_strlit("color_extract_batch_size");
    reveal_strlit("cors_origins");
    reveal_strlit("drain_timeout_secs");
    reveal_strlit("worker_health_port");
    reveal_strlit("auth_max_retries");
    reveal_strlit("auth_backoff_base_ms");
    reveal_strlit("task_max_retries");
    reveal_strlit("task_backoff_base");
    reveal_strlit("task_poll_interval_ms");
    reveal_strlit("task_default_timeout_secs");
    reveal_strlit("task_dedup_ttl_secs");
    reveal_strlit("task_cleanup_ttl_hours");
    reveal_strlit("dead_letter_ttl_hours");
    reveal_strlit("watchdog_check_interval_secs");
    reveal_strlit("watchdog_stuck_timeout_secs");
    reveal_strlit("task_concurrency_crawl");
    reveal_strlit("task_concurrency_download");
    reveal_strlit("task_concurrency_color_extract");
    reveal_strlit("task_concurrency_upload");
    reveal_strlit("task_concurrency_accessibility_check");
    reveal_strlit("task_concurrency_discover");
    reveal_strlit("task_concurrency_refresh_pixiv_token");
    reveal_strlit("task_concurrency_cleanup");
    assert("jwt_expire_minutes"@.len() != "api_database_url"@.len());
    assert("jwt_expire_minutes"@.len() != "dogecloud_access_key"@.len());
    assert("jwt_expire_minutes"@.len() != "dogecloud_secret_key"@.len());
    assert("jwt_expire_minutes"@.len() != "pixiv_refresh_token"@.len());
    assert("jwt_expire_minutes"@[0] != "queue_database_url"@[0]);
    assert("jwt_expire_minutes"@.len() != "secret_key"@.len());
    assert("cdn_base_url"@.len() != "api_database_url"@.len());
    assert("cdn_base_url"@.len() != "dogecloud_access_key"@.len());
    assert("cdn_base_url"@.len() != "dogecloud_secret_key"@.len());
    assert("cdn_base_url"@.len() != "pixiv_refresh_token"@.len());
    assert("cdn_base_url"@.len() != "queue_database_url"@.len());
    assert("cdn_base_url"@.len() != "secret_key"@.len());
    assert("image_dir"@.len() != "api_database_url"@.len());
    assert("image_dir"@.len() != "dogecloud_access_key"@.len());
    assert("image_dir"@.len() != "dogecloud_secret_key"@.len());
    assert("image_dir"@.len() != "pixiv_refresh_token"@.len());
    assert("image_dir"@.len() != "queue_database_url"@.len());
    assert("image_dir"@.len() != "secret_key"@.len());
    assert("server_addr"@.len() != "api_database_url"@.len());
    assert("server_addr"@.len() != "dogecloud_access_key"@.len());
    assert("server_addr"@.len() != "dogecloud_secret_key"@.len());
    assert("server_addr"@.len() != "pixiv_refresh_token"@.len());
    assert("server_addr"@.len() != "queue_database_url"@.len());
    assert("server_addr"@.len() != "secret_key"@.len());
    assert("pixiv_proxy"@.len() != "api_database_url"@.len());
    assert("pixiv_proxy"@.len() != "dogecloud_access_key"@.len());
    assert("pixiv_proxy"@.len() != "dogecloud_secret_key"@.len());
    assert("pixiv_proxy"@.len() != "pixiv_refresh_token"@.len());
    assert("pixiv_proxy"@.len() != "queue_database_url"@.len());
    assert("pixiv_proxy"@.len() != "secret_key"@.len());
    assert("pixiv_accept_lang"@.len() != "api_database_url"@.len());
    assert("pixiv_accept_lang"@.len() != "dogecloud_access_key"@.len());
    assert("pixiv_accept_lang"@.len() != "dogecloud_secret_key"@.len());
    assert("pixiv_accept_lang"@.len() != "pixiv_refresh_token"@.len());
    assert("pixiv_accept_lang"@.len() != "queue_database_url"@.len());
    assert("pixiv_accept_lang"@.len() != "secret_key"@.len());
    assert("pixiv_timeout_secs"@.len() != "api_database_url"@.len());
    assert("pixiv_timeout_secs"@.len() != "dogecloud_access_key"@.len());
    assert("pixiv_timeout_secs"@.len() != "dogecloud_secret_key"@.len());
    assert("pixiv_timeout_secs"@.len() != "pixiv_refresh_token"@.len());
    assert("pixiv_timeout_secs"@[0] != "queue_database_url"@[0]);
    assert("pixiv_timeout_secs"@.len() != "secret_key"@.len());
    assert("log_level"@.len() != "api_database_url"@.len());
    assert("log_level"@.len() != "dogecloud_access_key"@.len());
    assert("log_level"@.len() != "dogecloud_secret_key"@.len());
    assert("log_level"@.len() != "pixiv_refresh_token"@.len());
    assert("log_level"@.len() != "queue_database_url"@.len());
    assert("log_level"@.len() != "secret_key"@.len());
    assert("log_dir"@.len() != "api_database_url"@.len());
    assert("log_dir"@.len() != "dogecloud_access_key"@.len());
    assert("log_dir"@.len() != "dogecloud_secret_key"@.len());
    assert("log_dir"@.len() != "pixiv_refresh_token"@.len());
    assert("log_dir"@.len() != "queue_database_url"@.len());
    assert("log_dir"@.len() != "secret_key"@.len());
    assert("log_json"@.len() != "api_database_url"@.len());
    assert("log_json"@.len() != "dogecloud_access_key"@.len());
    assert("log_json"@.len() != "dogecloud_secret_key"@.len());
    assert("log_json"@.len() != "pixiv_refresh_token"@.len());
    assert("log_json"@.len() != "queue_database_url"@.len());
    assert("log_json"@.len() != "secret_key"@.len());
    assert("max_discover_hops"@.len() != "api_database_url"@.len());
    assert("max_discover_hops"@.len() != "dogecloud_access_key"@.len());
    assert("max_discover_hops"@.len() != "dogecloud_secret_key"@.len());
    assert("max_discover_hops"@.len() != "pixiv_refresh_token"@.len());
    assert("max_discover_hops"@.len() != "queue_database_url"@.len());
    assert("max_discover_hops"@.len() != "secret_key"@.len());
    assert("discover_seed_limit"@.len() != "api_database_url"@.len());
    assert("discover_seed_limit"@.len() != "dogecloud_access_key"@.len());
    assert("discover_seed_limit"@.len() != "dogecloud_secret_key"@.len());
    assert("discover_seed_limit"@[0] != "pixiv_refresh_token"@[0]);
    assert("discover_seed_limit"@.len() != "queue_database_url"@.len());
    assert("discover_seed_limit"@.len() != "secret_key"@.len());
    assert("dogecloud_s3_bucket"@.len() != "api_database_url"@.len());
    assert("dogecloud_s3_bucket"@.len() != "dogecloud_access_key"@.len());
    assert("dogecloud_s3_bucket"@.len() != "dogecloud_secret_key"@.len());
    assert("dogecloud_s3_bucket"@[0] != "pixiv_refresh_token"@[0]);
    assert("dogecloud_s3_bucket"@.len() != "queue_database_url"@.len());
    assert("dogecloud_s3_bucket"@.len() != "secret_key"@.len());
    assert("dogecloud_s3_endpoint"@.len() != "api_database_url"@.len());
    assert("dogecloud_s3_endpoint"@.len() != "dogecloud_access_key"@.len());
    assert("dogecloud_s3_endpoint"@.len() != "dogecloud_secret_key"@.len());
    assert("dogecloud_s3_endpoint"@.len() != "pixiv_refresh_token"@.len());
    assert("dogecloud_s3_endpoint"@.len() != "queue_database_url"@.len());
    assert("dogecloud_s3_endpoint"@.len() != "secret_key"@.len());
    assert("color_worker_rayon_threads"@.len() != "api_database_url"@.len());
    assert("color_worker_rayon_threads"@.len() != "dogecloud_access_key"@.len());
    assert("color_worker_rayon_threads"@.len() != "dogecloud_secret_key"@.len());
    assert("color_worker_rayon_threads"@.len() != "pixiv_refresh_token"@.len());
    assert("color_worker_rayon_threads"@.len() != "queue_database_url"@.len());
    assert("color_worker_rayon_threads"@.len() != "secret_key"@.len());
    assert("color_worker_standalone"@.len() != "api_database_url"@.len());
    assert("color_worker_standalone"@.len() != "dogecloud_access_key"@.len());
    assert("color_worker_standalone"@.len() != "dogecloud_secret_key"@.len());
    assert("color_worker_standalone"@.len() != "pixiv_refresh_token"@.len());
    assert("color_worker_standalone"@.len() != "queue_database_url"@.len());
    assert("color_worker_standalone"@.len() != "secret_key"@.len());
    assert("color_extract_k"@.len() != "api_database_url"@.len());
    assert("color_extract_k"@.len() != "dogecloud_access_key"@.len());
    assert("color_extract_k"@.len() != "dogecloud_secret_key"@.len());
    assert("color_extract_k"@.len() != "pixiv_refresh_token"@.len());
    assert("color_extract_k"@.len() != "queue_database_url"@.len());
    assert("color_extract_k"@.len() != "secret_key"@.len());
    assert("color_extract_max_iter"@.len() != "api_database_url"@.len());
    assert("color_extract_max_iter"@.len() != "dogecloud_access_key"@.len());
    assert("color_extract_max_iter"@.len() != "dogecloud_secret_key"@.len());
    assert("color_extract_max_iter"@.len() != "pixiv_refresh_token"@.len());
    assert("color_extract_max_iter"@.len() != "queue_database_url"@.len());
    assert("color_extract_max_iter"@.len() != "secret_key"@.len());
    assert("color_extract_batch_size"@.len() != "api_database_url"@.len());
    assert("color_extract_batch_size"@.len() != "dogecloud_access_key"@.len());
    assert("color_extract_batch_size"@.len() != "dogecloud_secret_key"@.len());
    assert("color_extract_batch_size"@.len() != "pixiv_refresh_token"@.len());
    assert("color_extract_batch_size"@.len() != "queue_database_url"@.len());
    assert("color_extract_batch_size"@.len() != "secret_key"@.len());
    assert("cors_origins"@.len() != "api_database_url"@.len());
    assert("cors_origins"@.len() != "dogecloud_access_key"@.len());
    assert("cors_origins"@.len() != "dogecloud_secret_key"@.len());
    assert("cors_origins"@.len() != "pixiv_refresh_token"@.len());
    assert("cors_origins"@.len() != "queue_database_url"@.len());
    assert("cors_origins"@.len() != "secret_key"@.len());
    assert("drain_timeout_secs"@.len() != "api_database_url"@.len());
    assert("drain_timeout_secs"@.len() != "dogecloud_access_key"@.len());
    assert("drain_timeout_secs"@.len() != "dogecloud_secret_key"@.len());
    assert("drain_timeout_secs"@.len() != "pixiv_refresh_token"@.len());
    assert("drain_timeout_secs"@[0] != "queue_database_url"@[0]);
    assert("drain_timeout_secs"@.len() != "secret_key"@.len());
    assert("worker_health_port"@.len() != "api_database_url"@.len());
    assert("worker_health_port"@.len() != "dogecloud_access_key"@.len());
    assert("worker_health_port"@.len() != "dogecloud_secret_key"@.len());
    assert("worker_health_port"@.len() != "pixiv_refresh_token"@.len());
    assert("worker_health_port"@[0] != "queue_database_url"@[0]);
    assert("worker_health_port"@.len() != "secret_key"@.len());
    assert("auth_max_retries"@[1] != "api_database_url"@[1]);
    assert("auth_max_retries"@.len() != "dogecloud_access_key"@.len());
    assert("auth_max_retries"@.len() != "dogecloud_secret_key"@.len());
    assert("auth_max_retries"@.len() != "pixiv_refresh_token"@.len());
    assert("auth_max_retries"@.len() != "queue_database_url"@.len());
    assert("auth_max_retries"@.len() != "secret_key"@.len());
    assert("auth_backoff_base_ms"@.len() != "api_database_url"@.len());
    assert("auth_backoff_base_ms"@[0] != "dogecloud_access_key"@[0]);
    assert("auth_backoff_base_ms"@[0] != "dogecloud_secret_key"@[0]);
    assert("auth_backoff_base_ms"@.len() != "pixiv_refresh_token"@.len());
    assert("auth_backoff_base_ms"@.len() != "queue_database_url"@.len());
    assert("auth_backoff_base_ms"@.len() != "secret_key"@.len());
    assert("task_max_retries"@[0] != "api_database_url"@[0]);
    assert("task_max_retries"@.len() != "dogecloud_access_key"@.len());
    assert("task_max_retries"@.len() != "dogecloud_secret_key"@.len());
    assert("task_max_retries"@.len() != "pixiv_refresh_token"@.len());
    assert("task_max_retries"@.len() != "queue_database_url"@.len());
    assert("task_max_retries"@.len() != "secret_key"@.len());
    assert("task_backoff_base"@.len() != "api_database_url"@.len());
    assert("task_backoff_base"@.len() != "dogecloud_access_key"@.len());
    assert("task_backoff_base"@.len() != "dogecloud_secret_key"@.len());
    assert("task_backoff_base"@.len() != "pixiv_refresh_token"@.len());
    assert("task_backoff_base"@.len() != "queue_database_url"@.len());
    assert("task_backoff_base"@.len() != "secret_key"@.len());
    assert("task_poll_interval_ms"@.len() != "api_database_url"@.len());
    assert("task_poll_interval_ms"@.len() != "dogecloud_access_key"@.len());
    assert("task_poll_interval_ms"@.len() != "dogecloud_secret_key"@.len());
    assert("task_poll_interval_ms"@.len() != "pixiv_refresh_token"@.len());
    assert("task_poll_interval_ms"@.len() != "queue_database_url"@.len());
    assert("task_poll_interval_ms"@.len() != "secret_key"@.len());
    assert("task_default_timeout_secs"@.len() != "api_database_url"@.len());
    assert("task_default_timeout_secs"@.len() != "dogecloud_access_key"@.len());
    assert("task_default_timeout_secs"@.len() != "dogecloud_secret_key"@.len());
    assert("task_default_timeout_secs"@.len() != "pixiv_refresh_token"@.len());
    assert("task_default_timeout_secs"@.len() != "queue_database_url"@.len());
    assert("task_default_timeout_secs"@.len() != "secret_key"@.len());
    assert("task_dedup_ttl_secs"@.len() != "api_database_url"@.len());
    assert("task_dedup_ttl_secs"@.len() != "dogecloud_access_key"@.len());
    assert("task_dedup_ttl_secs"@.len() != "dogecloud_secret_key"@.len());
    assert("task_dedup_ttl_secs"@[0] != "pixiv_refresh_token"@[0]);
    assert("task_dedup_ttl_secs"@.len() != "queue_database_url"@.len());
    assert("task_dedup_ttl_secs"@.len() != "secret_key"@.len());
    assert("task_cleanup_ttl_hours"@.len() != "api_database_url"@.len());
    assert("task_cleanup_ttl_hours"@.len() != "dogecloud_access_key"@.len());
    assert("task_cleanup_ttl_hours"@.len() != "dogecloud_secret_key"@.len());
    assert("task_cleanup_ttl_hours"@.len() != "pixiv_refresh_token"@.len());
    assert("task_cleanup_ttl_hours"@.len() != "queue_database_url"@.len());
    assert("task_cleanup_ttl_hours"@.len() != "secret_key"@.len());
    assert("dead_letter_ttl_hours"@.len() != "api_database_url"@.len());
    assert("dead_letter_ttl_hours"@.len() != "dogecloud_access_key"@.len());
    assert("dead_letter_ttl_hours"@.len() != "dogecloud_secret_key"@.len());
    assert("dead_letter_ttl_hours"@.len() != "pixiv_refresh_token"@.len());
    assert("dead_letter_ttl_hours"@.len() != "queue_database_url"@.len());
    assert("dead_letter_ttl_hours"@.len() != "secret_key"@.len());
    assert("watchdog_check_interval_secs"@.len() != "api_database_url"@.len());
    assert("watchdog_check_interval_secs"@.len() != "dogecloud_access_key"@.len());
    assert("watchdog_check_interval_secs"@.len() != "dogecloud_secret_key"@.len());
    assert("watchdog_check_interval_secs"@.len() != "pixiv_refresh_token"@.len());
    assert("watchdog_check_interval_secs"@.len() != "queue_database_url"@.len());
    assert("watchdog_check_interval_secs"@.len() != "secret_key"@.len());
    assert("watchdog_stuck_timeout_secs"@.len() != "api_database_url"@.len());
    assert("watchdog_stuck_timeout_secs"@.len() != "dogecloud_access_key"@.len());
    assert("watchdog_stuck_timeout_secs"@.len() != "dogecloud_secret_key"@.len());
    assert("watchdog_stuck_timeout_secs"@.len() != "pixiv_refresh_token"@.len());
    assert("watchdog_stuck_timeout_secs"@.len() != "queue_database_url"@.len());
    assert("watchdog_stuck_timeout_secs"@.len() != "secret_key"@.len());
    assert("task_concurrency_crawl"@.len() != "api_database_url"@.len());
    assert("task_concurrency_crawl"@.len() != "dogecloud_access_key"@.len());
    assert("task_concurrency_crawl"@.len() != "dogecloud_secret_key"@.len());
    assert("task_concurrency_crawl"@.len() != "pixiv_refresh_token"@.len());
    assert("task_concurrency_crawl"@.len() != "queue_database_url"@.len());
    assert("task_concurrency_crawl"@.len() != "secret_key"@.len());
    assert("task_concurrency_download"@.len() != "api_database_url"@.len());
    assert("task_concurrency_download"@.len() != "dogecloud_access_key"@.len());
    assert("task_concurrency_download"@.len() != "dogecloud_secret_key"@.len());
    assert("task_concurrency_download"@.len() != "pixiv_refresh_token"@.len());
    assert("task_concurrency_download"@.len() != "queue_database_url"@.len());
    assert("task_concurrency_download"@.len() != "secret_key"@.len());
    assert("task_concurrency_color_extract"@.len() != "api_database_url"@.len());
    assert("task_concurrency_color_extract"@.len() != "dogecloud_access_key"@.len());
    assert("task_concurrency_color_extract"@.len() != "dogecloud_secret_key"@.len());
    assert("task_concurrency_color_extract"@.len() != "pixiv_refresh_token"@.len());
    assert("task_concurrency_color_extract"@.len() != "queue_database_url"@.len());
    assert("task_concurrency_color_extract"@.len() != "secret_key"@.len());
    assert("task_concurrency_upload"@.len() != "api_database_url"@.len());
    assert("task_concurrency_upload"@.len() != "dogecloud_access_key"@.len());
    assert("task_concurrency_upload"@.len() != "dogecloud_secret_key"@.len());
    assert("task_concurrency_upload"@.len() != "pixiv_refresh_token"@.len());
    assert("task_concurrency_upload"@.len() != "queue_database_url"@.len());
    assert("task_concurrency_upload"@.len() != "secret_key"@.len());
    assert("task_concurrency_accessibility_check"@.len() != "api_database_url"@.len());
    assert("task_concurrency_accessibility_check"@.len() != "dogecloud_access_key"@.len());
    assert("task_concurrency_accessibility_check"@.len() != "dogecloud_secret_key"@.len());
    assert("task_concurrency_accessibility_check"@.len() != "pixiv_refresh_token"@.len());
    assert("task_concurrency_accessibility_check"@.len() != "queue_database_url"@.len());
    assert("task_concurrency_accessibility_check"@.len() != "secret_key"@.len());
    assert("task_concurrency_discover"@.len() != "api_database_url"@.len());
    assert("task_concurrency_discover"@.len() != "dogecloud_access_key"@.len());
    assert("task_concurrency_discover"@.len() != "dogecloud_secret_key"@.len());
    assert("task_concurrency_discover"@.len() != "pixiv_refresh_token"@.len());
    assert("task_concurrency_discover"@.len() != "queue_database_url"@.len());
    assert("task_concurrency_discover"@.len() != "secret_key"@.len());
    assert("task_concurrency_refresh_pixiv_token"@.len() != "api_database_url"@.len());
    assert("task_concurrency_refresh_pixiv_token"@.len() != "dogecloud_access_key"@.len());
    assert("task_concurrency_refresh_pixiv_token"@.len() != "dogecloud_secret_key"@.len());
    assert("task_concurrency_refresh_pixiv_token"@.len() != "pixiv_refresh_token"@.len());
    assert("task_concurrency_refresh_pixiv_token"@.len() != "queue_database_url"@.len());
    assert("task_concurrency_refresh_pixiv_token"@.len() != "secret_key"@.len());
    assert("task_concurrency_cleanup"@.len() != "api_database_url"@.len());
    assert("task_concurrency_cleanup"@.len() != "dogecloud_access_key"@.len());
    assert("task_concurrency_cleanup"@.len() != "dogecloud_secret_key"@.len());
    assert("task_concurrency_cleanup"@.len() != "pixiv_refresh_token"@.len());
    assert("task_concurrency_cleanup"@.len() != "queue_database_url"@.len());
    assert("task_concurrency_cleanup"@.len() != "secret_key"@.len());
    assert(debug_names()[i] == debug_names()[i]);
}

} // verus!
