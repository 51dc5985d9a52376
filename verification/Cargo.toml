[package]
name = "rustmission_core"
version = "0.1.0"
edition = "2021"
publish = false

[dependencies]
anyhow = "*"
crossterm = "*"
serde = { version = "*", features = ["derive"] }
toml = "*"
