[package]
name = "wftui"
version = "0.1.0"
edition = "2021"
publish = false

[dependencies]
ratatui = "0.30"
tokio = { version = "1", features = ["macros", "rt", "rt-multi-thread", "signal", "sync", "time"] }
tracing = "0.1"
