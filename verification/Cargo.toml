[package]
name = "abar"
version = "0.1.0"
edition = "2021"
publish = false

[dependencies]
flume = { version = "0.11", default-features = false }
getopts = "0.2"
rand = "0.8"
