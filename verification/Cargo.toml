[package]
name = "rtjam_rust"
version = "0.1.0"
edition = "2021"
publish = false

[dependencies]
serde = { version = "1", features = ["derive"] }
serde_json = "1"
wmidi = "4"
mac_address = "1"
num = "0.4"
log = "0.4"
thread-priority = "*"
alsa = "*"
jack = "*"
