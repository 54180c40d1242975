[package]
name = "optional_struct"
version = "0.1.0"
edition = "2021"
publish = false

[dependencies]
quote = "=0.3.15"
syn = { version = "=0.11.11", features = ["full"] }

[dev-dependencies]
serde_json = "1"
