[package]
name = "lsm_compaction"
version = "0.1.0"
edition = "2021"
publish = false

[dependencies]
regex = "=1.13.1"
futures = "=0.3.34"
async-trait = "=0.1.92"
tokio = { version = "=1.54.1", features = ["rt-multi-thread", "macros", "time", "sync", "net"] }
tokio-stream = { version = "=0.1.19", features = ["net"] }
tonic = "=0.8.3"
etcd-client = "0.8"
serde = { version = "=1.0.229", features = ["derive"] }
humantime-serde = "=1.1.1"
snafu = "=0.7.5"
derive_builder = "=0.12.0"
arc-swap = "=1.9.3"
syn = { version = "=1.0.109", features = ["full"] }
quote = "=1.0.47"
proc-macro2 = "=1.0.107"
