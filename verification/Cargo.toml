[package]
name = "discord-spotify-bot"
version = "0.1.0"
edition = "2021"
publish = false

[dependencies]
anyhow = "=1.0.104"
axum = { version = "0.8", default-features = false, features = ["http1", "query", "tokio"] }
base64 = "=0.22.1"
crossbeam-channel = "0.5"
dashmap = "=6.2.1"
dotenvy = "0.15"
futures-util = "0.3"
librespot-connect = { version = "0.8", default-features = false, features = ["rustls-tls-webpki-roots"] }
librespot-core = { version = "0.8", default-features = false, features = ["rustls-tls-webpki-roots"] }
librespot-metadata = { version = "0.8", default-features = false, features = ["rustls-tls-webpki-roots"] }
librespot-playback = { version = "0.8", default-features = false, features = ["rustls-tls-webpki-roots"] }
reqwest = { version = "0.12", default-features = false, features = ["json"] }
serde = { version = "1", features = ["derive"] }
serde_json = "=1.0.154"
serenity = { version = "0.12", default-features = false, features = ["builder", "cache", "client", "gateway", "http", "model", "rustls_backend"] }
tokio = { version = "1", features = ["macros", "net", "rt-multi-thread", "sync", "time"] }
tracing = "0.1"
tracing-subscriber = { version = "0.3", features = ["env-filter"] }
url = "=2.5.8"
vergen = "=9.0.6"
