[package]
name = "acdm"
version = "0.1.0"
edition = "2021"
publish = false

[dependencies]
anyhow = "*"
clap = { version = "*", features = ["derive"] }
glob = "*"
serde = { version = "*", features = ["derive"] }
tempfile = "*"
toml = "*"
walkdir = "*"
