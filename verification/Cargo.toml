[package]
name = "troyonthetrails"
version = "0.1.0"
edition = "2021"
publish = false

[dependencies]
anyhow = "1"
axum = { version = "0.6", features = ["macros"] }
chrono = "0.4"
cocoon = "0.4"
dotenv = "0.15"
futures-util = "0.3"
geo = "*"
humantime = "2"
libsql = "*"
reqwest = { version = "0.11", default-features = false, features = ["json", "multipart", "rustls-tls"] }
serde = { version = "1", features = ["derive"] }
serde_json = "1"
serde_urlencoded = "0.7"
sha2 = "0.10"
tokio = { version = "1", features = ["full"] }
tokio-tungstenite = "*"
tower-http = { version = "0.4", features = ["compression-gzip", "fs", "trace"] }
tracing = "0.1"
tracing-subscriber = { version = "0.3", features = ["env-filter"] }
url = "2"
