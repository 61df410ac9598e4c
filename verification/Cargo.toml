[package]
name = "sdev"
version = "0.1.0"
edition = "2021"
publish = false

[dependencies]
nucleo = "0.5"
gix-url = "*"
ratatui = "*"
clap = { version = "4", features = ["derive"] }
anyhow = "1"
walkdir = "2"
opener = "*"
