[package]
name = "micro_timer"
version = "0.1.0"
edition = "2021"
publish = false

[dependencies]
crossbeam-channel = "*"
rustler = "*"
