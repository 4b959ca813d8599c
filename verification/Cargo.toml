[package]
name = "charta_ir"
version = "0.1.0"
edition = "2021"
publish = false

[dependencies]
jsonschema = { version = "0.17", default-features = false }
serde = { version = "1", features = ["derive"] }
serde_json = "1"
thiserror = "1"
