[package]
name = "locwork"
version = "0.1.0"
edition = "2021"
publish = false

[dependencies]
time = { version = "0.3", features = ["std", "formatting"] }
ratatui = { version = "0.29", features = ["widget-calendar"] }
crossterm = { version = "0.28", features = ["event-stream"] }
tokio = { version = "1", features = ["macros", "rt-multi-thread", "sync"] }
sqlx = { version = "0.8", default-features = false, features = ["runtime-tokio", "sqlite", "macros", "time"] }
futures-util = "0.3"
color-eyre = "0.6"
directories = "5"
