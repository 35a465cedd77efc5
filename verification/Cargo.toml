[package]
name = "wsinstall"
version = "0.1.0"
edition = "2021"
publish = false

[dependencies]
serde_json = "*"
glob = "*"
clap = { version = "*", features = ["derive"] }
