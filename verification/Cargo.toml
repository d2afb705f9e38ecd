[package]
name = "voicetypr_core"
version = "0.1.0"
edition = "2021"
publish = false

[dependencies]
keyboard-types = "=0.7.0"
sha2 = "=0.10.9"
regex = "=1.13.1"
serde = { version = "=1.0.229", features = ["derive"] }
serde_json = "=1.0.154"
chrono = "=0.4.45"
uuid = { version = "=1.29.0", features = ["v4"] }
sysinfo = "=0.40.1"
reqwest = { version = "0.12", default-features = false }
