[package]
name = "dragonfly-client-metrics"
version = "0.1.0"
edition = "2021"
publish = false

[dependencies]
prometheus = { version = "0.13", features = ["process"] }
fs2 = "0.4"
tracing = "0.1"
warp = "0.3"
tokio = { version = "1", features = ["macros", "rt-multi-thread", "sync", "time"] }
lazy_static = "1"
clap = "4"
home = "0.5"
dragonfly-api = "2"
