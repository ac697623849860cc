[package]
name = "mediary_core"
version = "0.1.0"
edition = "2021"
publish = false

[dependencies]
rusqlite = { version = "*", features = ["bundled"] }
infer = "*"
strum = { version = "*", features = ["derive"] }
directories = "*"

[dev-dependencies]
tempfile = "*"
