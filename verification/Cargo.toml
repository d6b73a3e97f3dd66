[package]
name = "swoncord"
version = "0.1.0"
edition = "2021"
publish = false

[dependencies]
regex = "=1.13.1"
discord-rich-presence = "=1.1.0"
crossbeam = "=0.8.5"
serde = { version = "=1.0.229", features = ["derive"] }
serde_json = "=1.0.154"
socket2 = "=0.5.10"
libc = "=0.2.191"
log = "=0.4.35"
pretty_env_logger = "=0.5.0"
musicbrainz_rs = { version = "=0.14.0", features = ["sync", "rustls"] }
reqwest = { version = "=0.12.28", features = ["blocking"] }
thiserror = "=2.0.21"
objc2 = "=0.6.5"
objc2-foundation = "=0.3.2"
objc2-app-kit = "=0.3.2"
objc2-service-management = "=0.3.2"
block2 = "=0.6.2"
