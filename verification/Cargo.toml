[package]
name = "oi_helper"
version = "2.3.0"
edition = "2021"
publish = false

[dependencies]
anyhow = "1"
clap = { version = "3.2", features = ["derive"] }
crossterm = "*"
home = "0.5"
html_parser = "*"
json = "0.12"
localoco = "*"
reqwest = { version = "0.11", features = ["blocking"] }
wait-timeout = "0.2"
