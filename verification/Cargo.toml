[package]
name = "entid"
version = "0.4.1"
edition = "2021"
publish = false

[dependencies]
uuid = { version = "1", features = ["v4", "v5", "serde"] }
ulid = { version = "1", features = ["serde"] }
serde = { version = "1", features = ["derive"] }

[dev-dependencies]
serde_json = "1"
