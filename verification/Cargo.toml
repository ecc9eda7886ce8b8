[package]
name = "mood_monitor"
version = "0.1.0"
edition = "2021"
publish = false

[dependencies]
log = "=0.4.34"
env_logger = "=0.10.2"
reqwest = { version = "=0.11.27", default-features = false, features = ["blocking"] }
sensehat-screen = "=0.2.6"
