[package]
name = "arcrelay_desktop"
version = "0.1.0"
edition = "2021"
publish = false

[dependencies]
uuid = { version = "=1.29.0", features = ["v4"] }
roxmltree = "=0.21.2"
serde = { version = "=1.0.229", features = ["derive"] }
serde_json = "=1.0.154"
image = { version = "0.25", default-features = false, features = ["png", "jpeg"] }
sha2 = "0.10"
base64 = "0.22"
rand = "0.8"
chrono = { version = "0.4", default-features = false, features = ["clock"] }
shellexpand = "3"
