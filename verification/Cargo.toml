[package]
name = "sysdash"
version = "0.1.0"
edition = "2021"
publish = false

[dependencies]
crossterm = "*"
log = "*"
ratatui = "*"
serde = { version = "1", features = ["derive"] }
serde_yml = "*"
simple_logger = "*"
sysinfo = "*"
tokio = { version = "1", features = ["rt-multi-thread", "macros", "time", "sync"] }
