[package]
name = "lanyarrs"
version = "0.1.0"
edition = "2021"
publish = false

[dependencies]
anyhow = "1"
axum = { version = "0.8", features = ["ws"] }
config = "0.15"
futures-util = { version = "0.3", features = ["sink"] }
garde = { version = "0.22", features = ["derive", "regex", "url"] }
nanoid = "0.4"
redis = { version = "*", features = ["tokio-comp", "connection-manager"] }
regex = "1"
serde = { version = "1", features = ["derive"] }
serde_json = { version = "1", features = ["raw_value"] }
serde_repr = "0.1"
thiserror = "2"
time = { version = "0.3", features = ["macros"] }
tokio = { version = "1", features = ["full"] }
tokio-tungstenite = { version = "*", features = ["rustls-tls-webpki-roots"] }
tokio-util = "0.7"
tracing = "0.1"
tracing-subscriber = { version = "0.3", features = ["fmt", "local-time"] }
