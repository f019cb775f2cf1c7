[package]
name = "api_flow"
version = "0.1.0"
edition = "2021"
publish = false

[dependencies]
ureq = { version = "2", default-features = false, features = ["json"] }
serde_json = "1"
