[package]
name = "gitspace"
version = "0.1.0"
edition = "2021"
publish = false

[dependencies]
clap = { version = "3", features = ["derive"] }
dirs = "4"
git2 = "0.15"
serde = { version = "1", features = ["derive"] }
serde_json = "1"
symlink = "0.1"
