[package]
name = "shell_executor"
version = "0.1.0"
edition = "2021"
publish = false

[dependencies]
chrono = "0.4"
clap = { version = "4", features = ["derive"] }
crossterm = "0.28"
portable-pty = "0.8"
ratatui = "0.29"
signal-hook = "0.3"
vt100 = "0.15"
