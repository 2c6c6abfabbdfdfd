[package]
name = "unibus"
version = "0.1.0"
edition = "2021"
publish = false

[dependencies]
lapin = { version = "2", default-features = false }
tokio = { version = "1", features = ["sync", "rt", "rt-multi-thread", "time", "macros", "signal"] }
tokio-executor-trait = "2"
tokio-reactor-trait = "1"
tracing = "0.1"
tracing-subscriber = { version = "0.3", features = ["env-filter"] }
thiserror = "1"
