[package]
name = "puls"
version = "0.1.0"
edition = "2021"
publish = false

[dependencies]
anyhow = "1"
clap = { version = "4", features = ["derive"] }
ctrlc = "3"
dirs = "5"
regex = "1"
serde = { version = "1", features = ["derive"] }
serde_yaml = "0.9"
webbrowser = "0.8"
