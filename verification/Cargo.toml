[package]
name = "write_mode"
version = "0.1.0"
edition = "2021"
publish = false

[dependencies]
fs-err = "*"
serde = { version = "*", features = ["derive"] }

[dev-dependencies]
tempfile = "*"
