[package]
name = "limitless_cli"
version = "0.1.0"
edition = "2021"
publish = false

[dependencies]
alloy = { version = "=1.8.3", default-features = false, features = ["std", "k256", "signers"] }
anyhow = "=1.0.104"
chrono = { version = "=0.4.45", default-features = false, features = ["std"] }
clap = { version = "4", features = ["derive", "env"] }
colored = "3"
crossterm = { version = "0.28", features = ["event-stream"] }
dirs = "6"
futures-util = "0.3"
getrandom = "=0.3.4"
hex = "=0.4.3"
ratatui = { version = "0.29", default-features = false, features = ["crossterm"] }
rust_decimal = "=1.43.0"
serde = { version = "=1.0.229", features = ["derive"] }
serde_json = "=1.0.154"
tabled = "*"
tokio = { version = "1", features = ["rt-multi-thread", "macros", "sync", "time"] }
tokio-tungstenite = { version = "*", default-features = false, features = ["connect"] }
