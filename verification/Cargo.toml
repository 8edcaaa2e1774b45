[package]
name = "scog"
version = "0.1.0"
edition = "2021"
publish = false

[dependencies]
chrono = "0.4"
git2 = "*"
serde = { version = "1", features = ["derive"] }
serde_yaml = "*"

[dev-dependencies]
regex = "1"
