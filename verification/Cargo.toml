[package]
name = "wye"
version = "0.1.0"
edition = "2021"
publish = false

[dependencies]
nix = { version = "0.30", features = ["fs", "ioctl", "process", "signal", "term"] }
rustix = { version = "1", features = ["event"] }
