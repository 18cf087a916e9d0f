[package]
name = "shush"
version = "0.1.0"
edition = "2021"
publish = false

[dependencies]
librespot-core = "=0.8.0"
librespot-oauth = "=0.8.0"
librespot-playback = { version = "=0.8.0", default-features = false }
librespot-metadata = "=0.8.0"
librespot-protocol = "=0.8.0"
vergen = { version = "=9.0.6", default-features = false }
rspotify = { version = "=0.16.1", default-features = false, features = ["client-reqwest", "reqwest-rustls-tls"] }
tokio = { version = "=1.54.1", features = ["full"] }
tokio-stream = "=0.1.19"
serde = { version = "=1.0.229", features = ["derive"] }
toml = "=1.1.8"
directories = "=6.0.0"
log = "=0.4.35"
env_logger = "=0.11.11"
chrono = "=0.4.45"
