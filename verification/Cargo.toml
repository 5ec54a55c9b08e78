[package]
name = "countdown_ws"
version = "0.1.0"
edition = "2021"
publish = false

[dependencies]
axum = { version = "*", features = ["ws"] }
axum-extra = { version = "*", features = ["typed-header"] }
tokio = { version = "*", features = ["macros", "rt-multi-thread", "net", "time", "fs"] }
tracing = "*"
tracing-subscriber = { version = "*", features = ["env-filter"] }
