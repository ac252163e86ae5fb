[package]
name = "agent-fleet-tile"
version = "0.1.0"
edition = "2021"
publish = false

[dependencies]
serde = { version = "1", features = ["derive"] }
shlex = "1"
zellij-tile = "*"
