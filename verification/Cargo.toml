[package]
name = "soundcore_control"
version = "0.1.0"
edition = "2021"
publish = false

[dependencies]
macaddr = "=1.0.1"
anyhow = "1"
tokio = { version = "1", features = ["rt-multi-thread", "sync", "time", "macros"] }
tracing = "0.1"
tracing-subscriber = "0.3"
dirs = "6"
futures = "0.3"
libc = "0.2"
notify-rust = "4"
ksni = "0.3"
