[package]
name = "osrs_mm"
version = "0.1.0"
edition = "2021"
publish = false

[dependencies]
clap = { version = "4", features = ["derive"] }
eyre = "0.6"
num-format = "0.4"
serde = { version = "1", features = ["derive"] }
serde_json = "1"
ureq = "2"
