[package]
name = "laminardb-test"
version = "0.1.0"
edition = "2021"
publish = false

[dependencies]
laminar-db = { version = "=0.13.1", default-features = false }
laminar-derive = "=0.16.0"
tokio = { version = "1", features = ["rt-multi-thread", "macros", "time", "net"] }
rand = "0.8"
chrono = "0.4"
ratatui = "0.29"
crossterm = "0.28"
serde_json = "1"
tokio-postgres = "0.7"
