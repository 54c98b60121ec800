[package]
name = "orc_agent"
version = "0.1.0"
edition = "2021"
publish = false

[dependencies]
sysinfo = "0.30"
axum = "0.7"
tokio = { version = "1", features = ["full"] }
clap = { version = "4", features = ["derive"] }
serde = { version = "1", features = ["derive"] }
tower-http = { version = "0.5", features = ["trace"] }
tracing = "0.1"
tracing-subscriber = { version = "0.3", features = ["env-filter"] }
