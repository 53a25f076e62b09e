[package]
name = "device_capture_system"
version = "0.1.0"
edition = "2021"
publish = false

[dependencies]
anyhow = "1"
bincode = "2"
clap = { version = "4", features = ["derive"] }
cpal = "0.15"
flume = "0.11"
glob = "0.3"
nokhwa = { version = "0.10", features = ["input-native"] }
tiny_http = "0.12"
tokio = { version = "1", features = ["rt-multi-thread", "macros"] }
v4l = "0.14"
zmq = "0.10"
