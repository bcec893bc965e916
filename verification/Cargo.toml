[package]
name = "nexus_session"
version = "0.1.0"
edition = "2021"
publish = false

[dependencies]
dashmap = "*"
pgwire = "*"
rand = "*"
clap = { version = "*", features = ["derive", "env"] }
tokio = { version = "*", features = ["rt-multi-thread", "net", "io-util", "macros", "sync"] }
anyhow = "*"
bytes = "*"
dotenvy = "*"
