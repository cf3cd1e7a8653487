[package]
name = "ticksync"
version = "0.1.0"
edition = "2021"
publish = false

[dependencies]
chrono = "=0.4.45"
log = "=0.4.34"
pretty_env_logger = "=0.5.0"
serde = { version = "=1.0.229", features = ["derive"] }
ureq = { version = "=3.4.2", features = ["json"] }
