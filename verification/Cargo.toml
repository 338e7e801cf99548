[package]
name = "pasta_td"
version = "0.1.0"
edition = "2021"
publish = false

[dependencies]
ring = "0.17"
base64 = "0.22"
serde = { version = "1", features = ["derive"] }
serde_json = "1"
bincode = "1.3"
quinn = "0.11"
tokio = { version = "1", features = ["rt-multi-thread", "macros", "sync", "time", "net"] }
ratatui = "0.29"
crossterm = "0.28"
rcgen = "0.13"
anyhow = "1"
get_if_addrs = "0.5"
