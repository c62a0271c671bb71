[package]
name = "sync-cli"
version = "0.1.0"
edition = "2021"
publish = false

[dependencies]
serde_json = "1"
ureq = { version = "2", default-features = false }
