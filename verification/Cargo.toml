[package]
name = "delta_core"
version = "0.1.0"
edition = "2021"
publish = false

[dependencies]
ulid = "*"
nanoid = "*"
chrono = "*"
bson = "*"
validator = "*"
deadqueue = "*"
iso8601-timestamp = "*"
serde = { version = "*", features = ["derive"] }
serde_json = "*"
surf = { version = "*", default-features = false, features = ["h1-client-rustls"] }
