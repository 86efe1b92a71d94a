[package]
name = "insync"
version = "0.1.0"
edition = "2021"
publish = false

[dependencies]
sha2 = "=0.10.9"
chrono = { version = "=0.4.45", default-features = false, features = ["std", "clock"] }
serde = { version = "=1.0.229", features = ["derive"] }
serde_json = "=1.0.154"
url = "=2.5.8"
clap = { version = "=4.6.7", features = ["derive"] }
ratatui = "=0.29.0"
crossterm = "=0.28.1"
tokio = { version = "=1.54.1", features = ["rt-multi-thread", "macros", "time", "sync", "signal"] }
rusqlite = { version = "=0.32.1", features = ["bundled"] }
keyring = { version = "=3.6.3", features = ["linux-native", "apple-native", "windows-native"] }
rpassword = "=7.5.4"
directories = "=5.0.1"
async-trait = "=0.1.92"
thiserror = "=1.0.69"
color-eyre = "=0.6.5"
tracing = "=0.1.44"
tracing-subscriber = { version = "=0.3.23", features = ["env-filter"] }
uuid = { version = "=1.29.0", features = ["v4"] }
