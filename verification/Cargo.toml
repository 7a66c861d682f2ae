[package]
name = "keyman"
version = "0.1.0"
edition = "2021"
publish = false

[dependencies]
serde = { version = "1", features = ["derive"] }
serde_json = "1"
anyhow = "1"
dirs = "*"
sysinfo = "*"
evdev = "*"
nix = { version = "*", features = ["fs"] }
xcb = "*"
single-instance = "*"
