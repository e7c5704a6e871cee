[package]
name = "tenzin"
version = "0.1.0"
edition = "2021"
publish = false

[dependencies]
anyhow = "1"
askama = "0.12"
async-imap = { version = "0.6", default-features = false, features = ["runtime-tokio"] }
async-native-tls = { version = "0.4", default-features = false, features = ["runtime-tokio"] }
axum = "0.6"
base64-url = "2"
bincode = "1.3"
chrono = "0.4"
ed25519-zebra = "4"
futures = "0.3"
lettre = { version = "0.10", features = ["tokio1-native-tls"] }
once_cell = "1"
parking_lot = "0.12"
rand = "0.8"
serde = { version = "1", features = ["derive"] }
tokio = { version = "1", features = ["macros", "rt-multi-thread", "time", "sync", "net"] }
toml = "0.7"
tracing = "0.1"
tracing-appender = "0.2"
tracing-subscriber = "0.3"
urlencoding = "2"
validator = "0.16"
walkdir = "2"
