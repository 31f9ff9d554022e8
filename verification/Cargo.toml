[package]
name = "ojd_server"
version = "0.1.0"
edition = "2021"
publish = false

[dependencies]
anyhow = "1"
daemonize = "*"
inotify = { version = "*", default-features = false }
nix = { version = "*", features = ["ioctl"] }
serde_json = "1"
