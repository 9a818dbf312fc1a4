[package]
name = "pc"
version = "0.1.0"
edition = "2021"
publish = false

[dependencies]
url = "=2.5.8"
serde = { version = "=1.0.229", features = ["derive"] }
serde_json = "=1.0.151"
toml = "=1.1.6"
reqwest = { version = "=0.13.5", default-features = false, features = ["blocking", "multipart", "form"] }
