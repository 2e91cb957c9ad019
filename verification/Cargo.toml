[package]
name = "query_replay"
version = "0.1.0"
edition = "2021"
publish = false

[dependencies]
anyhow = "1"
futures = "0.3"
sqlx = { version = "0.8", default-features = false, features = ["runtime-tokio", "mysql", "postgres"] }
tokio = { version = "1", features = ["rt-multi-thread", "macros", "fs", "io-util", "time"] }
