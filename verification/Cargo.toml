[package]
name = "rustdrivesync"
version = "1.1.1"
edition = "2021"
publish = false

[dependencies]
anyhow = "=1.0.104"
async-trait = "=0.1.92"
chrono = "=0.4.45"
clap = { version = "=4.6.7", features = ["derive"] }
ctrlc = "=3.5.2"
futures = "=0.3.34"
google-drive3 = "=5.0.5"
md-5 = "=0.10.6"
mime_guess = "=2.0.5"
notify = "=6.1.1"
notify-debouncer-mini = "=0.4.1"
reqwest = { version = "=0.11.27", default-features = false, features = ["json", "stream", "rustls-tls"] }
serde = { version = "=1.0.229", features = ["derive"] }
serde_json = "=1.0.154"
tokio = { version = "=1.54.1", features = ["full"] }
tokio-util = { version = "=0.7.20", features = ["io"] }
toml = "=0.8.23"
tracing = "=0.1.44"
tracing-subscriber = { version = "=0.3.23", features = ["env-filter"] }
walkdir = "=2.5.0"
yup-oauth2 = "=9.0.0"

[dev-dependencies]
tempfile = "=3.27.0"
