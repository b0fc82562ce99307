[package]
name = "lightify"
version = "0.1.0"
edition = "2021"
publish = false

[dependencies]
anyhow = "=1.0.104"
crossterm = { version = "=0.28.1", features = ["event-stream"] }
futures = "=0.3.34"
librespot = { version = "=0.8.0", default-features = false, features = ["rustls-tls-webpki-roots"] }
librespot-oauth = { version = "=0.8.0", default-features = false, features = ["rustls-tls-webpki-roots"] }
protobuf = "=3.7.2"
ratatui = { version = "=0.29.0", features = ["serde"] }
serde = { version = "=1.0.229", features = ["derive"] }
thiserror = "=2.0.21"
tokio = { version = "=1.54.1", features = ["full"] }
toml = "=0.8.23"
tracing = "=0.1.44"
vergen = "=9.0.6"
tracing-subscriber = { version = "=0.3.23", default-features = false, features = ["fmt", "std", "registry"] }
