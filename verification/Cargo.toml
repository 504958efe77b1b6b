[package]
name = "screenwatch"
version = "0.1.0"
edition = "2021"
publish = false

[dependencies]
anyhow = "1"
chrono = "0.4"
ctrlc = "3"
repng = "0.2"
scrap = "*"
structopt = "0.3"
