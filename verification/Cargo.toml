[package]
name = "tgt_core"
version = "0.1.0"
edition = "2021"
publish = false

[dependencies]
crossterm = { version = "0.28", features = ["event-stream"] }
futures = "0.3"
ratatui = "0.29"
signal-hook = "0.3"
tdlib-rs = "*"
tokio = { version = "1", features = ["macros", "rt", "rt-multi-thread", "sync", "time"] }
