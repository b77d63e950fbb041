[package]
name = "load_dashboard"
version = "0.1.0"
edition = "2021"
publish = false

[dependencies]
anyhow = "*"
crossterm = "*"
rand = "0.8"
ratatui = "*"
tokio = { version = "*", features = ["rt-multi-thread", "macros", "time"] }
