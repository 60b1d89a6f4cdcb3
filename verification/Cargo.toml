[package]
name = "cider"
version = "0.1.0"
edition = "2021"
publish = false

[dependencies]
json = "0.12"
relative-path = "*"
log = "0.4"
simplelog = "*"
clap = { version = "4", features = ["derive"] }
chrono = "0.4"
csv = "1"
