[package]
name = "mcp3008"
version = "0.1.0"
edition = "2021"
publish = false

[dependencies]
rppal = "*"
