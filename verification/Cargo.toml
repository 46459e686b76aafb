[package]
name = "ctclsite"
version = "0.1.0"
edition = "2021"
publish = false

[dependencies]
comrak = "=0.44.0"
hex = "=0.4.3"
image = { version = "=0.25.10", default-features = false, features = ["ico"] }
serde = { version = "=1.0.229", features = ["derive"] }
serde_json = "=1.0.151"
walkdir = "=2.5.0"
