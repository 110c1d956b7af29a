[package]
name = "nbot"
version = "0.1.0"
edition = "2021"
publish = false

[dependencies]
anyhow = "*"
sqlx = { version = "*", default-features = false, features = ["runtime-tokio", "postgres"] }
tokio = { version = "*", features = ["rt-multi-thread", "macros"] }
tracing = "*"
tracing-subscriber = "*"
twilight-cache-inmemory = "0.15"
twilight-gateway = "0.15"
twilight-http = "0.15"
twilight-mention = "0.15"
twilight-model = "0.15"
twilight-util = { version = "0.15", features = ["builder"] }
