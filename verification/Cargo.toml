[package]
name = "conduit"
version = "0.1.0"
edition = "2021"
publish = false

[dependencies]
indexmap = { version = "=1.9.3", features = ["serde-1"] }
seed = "=0.5.1"
serde = { version = "=1.0.229", features = ["derive"] }
