[package]
name = "yank"
version = "0.1.0"
edition = "2021"
publish = false

[dependencies]
arboard = "3"
clap = { version = "4", features = ["derive"] }
dirs = "*"
serde_json = "1"
thiserror = "*"
