[package]
name = "playback"
version = "0.1.0"
edition = "2021"
publish = false

[dependencies]
serde_json = "1"
futures = "0.1"
log = "0.4"
alsa = "0.2"
