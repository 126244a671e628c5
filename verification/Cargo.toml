[package]
name = "mws"
version = "0.1.0"
edition = "2021"
publish = false

[dependencies]
xml = "0.8"
chrono = "0.4"
