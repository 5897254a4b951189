[package]
name = "argusx"
version = "0.1.0"
edition = "2021"
publish = false

[dependencies]
uuid = { version = "=1.29.0", features = ["v4"] }
sha2 = "=0.10.9"
hkdf = "=0.12.4"
aes-gcm = "=0.10.3"
base64 = "=0.22.1"
rand = "=0.8.8"
url = "=2.5.8"
serde = { version = "=1.0.229", features = ["derive"] }
serde_json = "=1.0.154"
tokio = { version = "=1.54.1", features = ["sync", "rt", "rt-multi-thread", "macros", "time", "net"] }
futures = "=0.3.34"
futures-util = "=0.3.34"
axum = { version = "=0.7.9", features = ["ws"] }
hyper-util = { version = "=0.1.21", features = ["client-legacy", "http1", "tokio"] }
hyper-tls = "=0.6.0"
chrono = "=0.4.45"
rusqlite = { version = "=0.31.0", features = ["bundled"] }
keyring = { version = "=3.6.3", features = ["apple-native", "windows-native", "linux-native"] }
mac_address = "=1.2.1"
hostname = "=0.4.2"
directories = "=5.0.1"
reqwest = { version = "=0.12.28", default-features = false, features = ["rustls-tls"] }
thiserror = "=1.0.69"
tracing = "=0.1.44"
async-trait = "=0.1.92"
