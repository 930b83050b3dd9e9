[package]
name = "randimg_core"
version = "0.1.0"
edition = "2021"
publish = false

[dependencies]
dashmap = "=6.2.1"
serde = { version = "=1.0.229", features = ["derive"] }
serde_json = "=1.0.154"
chrono = "=0.4.45"
uuid = { version = "=1.29.0", features = ["v4"] }
dotenvy = "=0.15.7"
jsonwebtoken = { version = "=11.1.0", features = ["rust_crypto"] }
tokio = { version = "=1.54.1", features = ["rt-multi-thread", "macros", "time", "fs", "sync", "signal"] }
tokio-util = "=0.7.20"
axum = "=0.8.9"
axum-extra = { version = "=0.12.6", features = ["typed-header"] }
tracing = "=0.1.44"
rayon = "=1.12.0"
mime_guess = "=2.0.5"
image = { version = "=0.25.10", default-features = false, features = ["png", "jpeg"] }
