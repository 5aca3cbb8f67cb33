[package]
name = "spotify_binds"
version = "0.1.0"
edition = "2021"
publish = false

[dependencies]
auto-launch = "*"
rspotify = { version = "=0.16.1", default-features = false, features = ["client-reqwest", "reqwest-rustls-tls", "cli"] }
tokio = { version = "=1.53.2", features = ["rt-multi-thread", "sync"] }
rdev = "=0.5.3"

[dev-dependencies]
serde_json = "=1.0.151"
