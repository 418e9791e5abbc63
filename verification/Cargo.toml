[package]
name = "mypitch"
version = "0.1.0"
edition = "2021"
publish = false

[dependencies]
cpal = "0.15"
crossbeam-channel = "0.5"
csv = "1"
serde = { version = "1", features = ["derive"] }
serde_json = "1"
yin = "0.2"
