[package]
name = "hutch"
version = "0.1.0"
edition = "2021"
publish = false

[dependencies]
bincode = "=1.3.3"
serde = { version = "=1.0.229", features = ["derive"] }
toml = "=1.1.8"
libc = "=0.2.191"
