[package]
name = "xime"
version = "0.1.0"
edition = "2021"
publish = false

[dependencies]
serde = { version = "=1.0.229", features = ["derive"] }
serde_yaml = "=0.9.34"
serde_json = "=1.0.154"
thiserror = "=1.0.69"
chrono = "=0.4.45"
uuid = { version = "=1.29.0", features = ["v4"] }
reqwest = { version = "=0.12.28", default-features = false, features = ["blocking"] }
xkbcommon = { version = "0.8", default-features = false }
