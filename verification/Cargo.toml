[package]
name = "system_status"
version = "0.1.0"
edition = "2021"
publish = false

[dependencies]
anyhow = "1"
argh = "0.1"
humansize = "2"
nix = { version = "0.26", features = ["fs"] }
serde = { version = "1", features = ["derive"] }
serde_json = "1"
zbus = "3"
