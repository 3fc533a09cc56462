[package]
name = "mudkip"
version = "0.1.0"
edition = "2021"
publish = false

[dependencies]
dark-light = "2"
log = "=0.4.34"
notify = "=8.2.0"
rfd = "0.15"
serde = { version = "=1.0.229", features = ["derive"] }
url = "=2.5.8"
