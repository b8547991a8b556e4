[package]
name = "wingetui"
version = "0.1.0"
edition = "2021"
publish = false

[dependencies]
serde = { version = "=1.0.229", features = ["derive"] }
serde_json = "=1.0.154"
thiserror = "=2.0.21"
tokio = { version = "=1.54.1", features = ["rt-multi-thread", "process", "sync", "macros", "time", "io-util"] }
crossterm = "=0.28.1"
ratatui = "=0.29.0"
encoding_rs = "=0.8.44"
unicode-width = "0.2"
