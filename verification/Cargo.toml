[package]
name = "feather-md"
version = "0.1.0"
edition = "2021"
publish = false

[dependencies]
percent-encoding = "*"
encoding_rs = "*"
serde = { version = "*", features = ["derive"] }
serde_json = "*"
rust-embed = "*"
clap = { version = "*", features = ["derive"] }
dirs = "*"
notify = "*"
rfd = "*"
tao = "*"
wry = "*"
winreg = "*"
