[package]
name = "api_client"
version = "0.1.0"
edition = "2021"
publish = false

[dependencies]
http = "=1.5.0"
reqwest = { version = "=0.13.5", default-features = false, features = ["form", "json", "multipart"] }
serde = "=1.0.229"
serde_json = "=1.0.154"
tracing = "=0.1.44"
