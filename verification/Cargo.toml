[package]
name = "tauri_recorder"
version = "0.1.0"
edition = "2021"
publish = false

[dependencies]
ogg = "0.9"
hound = "3.5"
audiopus = "0.2"
parking_lot = "0.12"
lazy_static = "1.4"
serde_json = "1"
