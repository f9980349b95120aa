[package]
name = "seneca_client"
version = "0.1.0"
edition = "2021"
publish = false

[dependencies]
chrono = "0.4"
serde_json = "1"
url = "2"
reqwest = { version = "0.12", default-features = false, features = ["blocking", "json"] }
