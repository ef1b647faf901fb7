[package]
name = "afl"
version = "0.1.0"
edition = "2021"
publish = false

[dependencies]
hashbrown = "0.9"
serde = { version = "1", features = ["derive"] }
