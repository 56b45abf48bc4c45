[package]
name = "kiklet"
version = "0.1.0"
edition = "2021"
publish = false

[dependencies]
chrono = "=0.4.45"
cpal = "=0.15.3"
hound = "=3.5.1"
serde = { version = "=1.0.229", features = ["derive"] }
serde_json = "=1.0.151"
time = { version = "=0.3.55", features = ["local-offset"] }
