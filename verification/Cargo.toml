[package]
name = "lib_broker"
version = "0.1.0"
edition = "2021"
publish = false

[dependencies]
async-trait = "*"
lapin = "*"
lazy_static = "*"
libc = "*"
rdkafka = "*"
serde_json = "*"
syslog = "*"
thiserror = "*"
tokio = { version = "*", features = ["rt-multi-thread", "sync"] }
tracing-appender = "*"
tracing-subscriber = "*"
winapi = { version = "*", features = ["debugapi"] }
