[package]
name = "pookie_paste"
version = "0.1.0"
edition = "2021"
publish = false

[dependencies]
serde = { version = "=1.0.229", features = ["derive"] }
serde_json = "=1.0.154"
toml = "=0.8.23"
sha2 = "=0.10.9"
uuid = { version = "=1.29.0", features = ["v4"] }
getrandom = "=0.4.3"
