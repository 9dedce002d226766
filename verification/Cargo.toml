[package]
name = "rsky_appview"
version = "0.1.0"
edition = "2021"
publish = false

[dependencies]
anyhow = "=1.0.104"
async-trait = "=0.1.92"
axum = "=0.8.9"
base64 = "=0.22.1"
bincode = "=1.3.3"
chrono = "=0.4.45"
fjall = "=2.11.2"
futures = "0.3"
livekit-api = { version = "=0.10.0", default-features = false, features = ["access-token", "services"] }
metrics = "*"
metrics-exporter-prometheus = { version = "*", default-features = false }
moka = { version = "=0.12.16", features = ["future"] }
reqwest = { version = "=0.12.28", default-features = false, features = ["json", "rustls-tls"] }
rsky-crypto = "=0.2.1"
rustls = { version = "0.23", default-features = false, features = ["ring", "std"] }
serde = { version = "=1.0.229", features = ["derive"] }
serde_json = "=1.0.154"
sqlx = { version = "=0.8.6", default-features = false, features = ["postgres", "runtime-tokio", "macros"] }
thiserror = "=2.0.21"
tokio = { version = "=1.54.1", features = ["rt-multi-thread", "macros", "sync", "time", "net"] }
tokio-tungstenite = { version = "*", features = ["rustls-tls-webpki-roots"] }
tower-http = { version = "=0.6.11", features = ["cors"] }
tracing = "=0.1.44"
tracing-subscriber = "=0.3.23"
url = "=2.5.8"
uuid = { version = "=1.29.0", features = ["v4"] }
