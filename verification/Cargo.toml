[package]
name = "nginx_loki"
version = "0.1.0"
edition = "2021"
publish = false

[dependencies]
anyhow = "=1.0.104"
chrono = "=0.4.45"
clap = { version = "=4.6.7", features = ["derive"] }
glob = "=0.3.4"
inotify = "=0.11.5"
maxminddb = "=0.24.0"
reqwest = { version = "=0.12.28", default-features = false, features = ["blocking", "json"] }
serde = { version = "=1.0.229", features = ["derive"] }
serde_json = "=1.0.154"
thiserror = "=2.0.21"
toml = "=0.8.23"
tracing = "=0.1.44"
tracing-subscriber = "=0.3.23"

[dev-dependencies]
regex = "1"
