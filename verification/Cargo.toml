[package]
name = "sidecar_supervisor"
version = "0.1.0"
edition = "2021"
publish = false

[dependencies]
base64 = "=0.22.1"
dirs = "=6.0.0"
env_logger = { version = "=0.11.11", default-features = false }
log = "=0.4.34"
portpicker = "=0.1.1"
reqwest = { version = "=0.12.28", default-features = false }
rfd = { version = "=0.15.4", default-features = false, features = ["xdg-portal", "tokio"] }
tokio = { version = "=1.54.1", default-features = false, features = ["time"] }
