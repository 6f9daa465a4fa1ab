[package]
name = "flock"
version = "0.1.0"
edition = "2021"
publish = false

[dependencies]
tungstenite = "*"
ffmpeg-sidecar = "*"
nix = { version = "*", features = ["signal"] }
