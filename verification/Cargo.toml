[package]
name = "nova"
version = "0.1.0"
edition = "2021"
publish = false

[dependencies]
anyhow = "*"
dotenvy = "*"
tokio = { version = "*", features = ["macros", "rt-multi-thread", "signal"] }
tracing = "*"
tracing-subscriber = { version = "*", features = ["env-filter"] }
twilight-gateway = "*"
twilight-http = "*"
twilight-model = "*"
twilight-util = { version = "*", features = ["builder"] }
