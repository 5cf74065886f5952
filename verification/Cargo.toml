[package]
name = "tzibbur_bridge"
version = "0.1.0"
edition = "2021"
publish = false

[dependencies]
aes-gcm = "=0.10.3"
anyhow = "=1.0.104"
axum = "=0.8.9"
base64 = "=0.22.1"
chrono = "=0.4.45"
futures-util = { version = "=0.3.34", features = ["sink"] }
hex = "=0.4.3"
hkdf = "=0.12.4"
hmac = "=0.12.1"
parking_lot = "=0.12.5"
phonenumber = "=0.3.10+9.0.33"
rand = "=0.8.8"
reqwest = { version = "=0.12.28", default-features = false, features = ["json", "rustls-tls"] }
rusqlite = { version = "=0.32.1", features = ["bundled-sqlcipher-vendored-openssl"] }
serde = { version = "=1.0.229", features = ["derive"] }
serde_json = "=1.0.154"
sha2 = "=0.10.9"
# teloxide-core takes any 0.1 of this one; 0.1.2 asks for a newer compiler than the one in use.
takecell = "=0.1.1"
teloxide = { version = "=0.15.0", default-features = false, features = ["macros", "rustls", "throttle", "ctrlc_handler", "webhooks-axum"] }
tokio = { version = "=1.54.1", features = ["rt-multi-thread", "macros", "sync", "time", "net", "signal"] }
tokio-tungstenite = { version = "=0.24.0", features = ["rustls-tls-webpki-roots"] }
tracing = "=0.1.44"
tracing-subscriber = { version = "=0.3.23", features = ["env-filter", "json"] }
url = "=2.5.8"
uuid = { version = "=1.29.0", features = ["v4"] }
