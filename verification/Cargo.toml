[package]
name = "convert_moves"
version = "0.1.0"
edition = "2021"
publish = false

[dependencies]
anyhow = "1"
chrono = "0.4"
structopt = "0.3"
xml-rs = "0.8"
