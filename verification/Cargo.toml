[package]
name = "statusfeed"
version = "0.1.0"
edition = "2021"
publish = false

[dependencies]
axum = "*"
tokio = { version = "*", features = ["rt-multi-thread", "macros", "sync", "net", "time"] }
futures = "*"
tower-http = { version = "*", features = ["cors", "fs"] }
tracing-subscriber = { version = "*", features = ["env-filter"] }
