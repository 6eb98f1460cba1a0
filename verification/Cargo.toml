[package]
name = "texrs"
version = "0.1.0"
edition = "2021"
publish = false

[dependencies]
clap = { version = "4", features = ["derive"] }
colored = "2"
cumaea = "*"
serde = { version = "1", features = ["derive"] }
serde_derive = "1"
toml = "0.8"
