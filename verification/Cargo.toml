[package]
name = "super_duper"
version = "0.1.0"
edition = "2021"
publish = false

[dependencies]
serde = { version = "=1.0.229", features = ["derive"] }
serde_json = "=1.0.154"
glob = "=0.3.4"
twox-hash = "=1.6.3"
indicatif = "=0.17.11"
chrono = "=0.4.45"
dashmap = "=5.5.3"
config = { version = "0.14", default-features = false, features = ["toml"] }
