[package]
name = "rust_edit"
version = "0.1.0"
edition = "2021"
publish = false

[dependencies]
crossterm = "0.27"
ratatui = "0.26"
tokio = { version = "1", features = ["rt-multi-thread", "macros", "sync", "time"] }
