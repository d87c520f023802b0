[package]
name = "cloneable_errors"
version = "0.1.0"
edition = "2021"
publish = false

[dependencies]
anyhow = "1"
serde = { version = "1", features = ["derive"] }
bincode = { version = "2", features = ["derive"] }
