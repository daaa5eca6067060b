[package]
name = "hrtimer"
version = "0.1.0"
edition = "2021"
publish = false

[dependencies]
nix = { version = "*", features = ["time"] }
tokio = { version = "*", features = ["net", "rt"] }
