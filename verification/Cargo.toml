[package]
name = "ratterm_core"
version = "0.1.0"
edition = "2021"
publish = false

[dependencies]
atty = "=0.2.14"
getrandom = "=0.3.4"
serde = { version = "1", features = ["derive"] }
serde_json = "1"
serde_yaml = "0.9"
crossterm = "0.28"
dirs = "5"
reqwest = { version = "0.12", default-features = false, features = ["blocking", "json", "rustls-tls"] }
