[package]
name = "boxlib"
version = "0.1.0"
edition = "2021"
publish = false

[dependencies]
anyhow = "*"
chrono = "*"
clap = { version = "*", features = ["derive"] }
crossterm = "*"
nix = { version = "*", features = ["term", "process", "fs"] }
ratatui = "*"
self-replace = "*"
self_update = "*"
shell-words = "*"
