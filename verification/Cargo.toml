[package]
name = "spicy_launcher_cli"
version = "0.1.0"
edition = "2021"
publish = false

[dependencies]
colored = "*"
anyhow = "*"
log = "*"
