pub mod text;
pub mod task_enum;
pub mod fingerprint;
pub mod task_queue;
pub mod clone_util;
pub mod jobs;
pub mod retry;
pub mod error;
pub mod task_tree;
pub mod task_api;
pub mod config;
pub mod watchdog;
pub mod auth;
pub mod pixiv_error;
pub mod color;
pub mod seeds;
pub mod illust;
pub mod crawl;
pub mod image_api;
pub mod credential;
pub mod root_query;
