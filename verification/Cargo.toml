[package]
name = "forum_upvote"
version = "0.1.0"
edition = "2021"
publish = false

[dependencies]
dotenvy = "0.15"
parking_lot = "0.12"
tokio = { version = "1", features = ["macros", "rt-multi-thread", "signal", "sync"] }
tracing = "0.1"
tracing-subscriber = { version = "0.3", features = ["env-filter", "fmt"] }
twilight-gateway = "0.15"
twilight-http = "0.15"
twilight-model = "0.15"
