[package]
name = "storm_grok"
version = "0.1.0"
edition = "2021"
publish = false

[dependencies]
anyhow = "1"
async-trait = "0.1"
axum = "0.6"
axum-server = { version = "0.5", features = ["tls-rustls"] }
base64 = "0.21"
base64-serde = "0.7"
bytes = "1"
chrono = { version = "0.4", features = ["serde"] }
clap = { version = "4", features = ["derive"] }
config = { version = "0.13", default-features = false, features = ["toml"] }
futures = "0.3"
hyper = { version = "0.14", features = ["full"] }
hyper-reverse-proxy = "0.5"
hyper-rustls = "0.24"
jsonwebtoken = "9"
parking_lot = "0.12"
pingora = { version = "*", features = ["proxy"] }
quinn = "0.10"
rcgen = "0.11"
rustls = { version = "0.21", features = ["dangerous_configuration", "quic"] }
rustls-pemfile = "1"
serde = { version = "1", features = ["derive"] }
serde_json = "1"
tokio = { version = "1", features = ["full"] }
tower = "0.4"
tracing = "0.1"
tracing-subscriber = { version = "0.3", features = ["env-filter"] }
uuid = { version = "1", features = ["v4"] }
webpki-roots = "0.25"
