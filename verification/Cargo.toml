[package]
name = "air_sensors"
version = "0.1.0"
edition = "2021"
publish = false

[dependencies]
heapless = "*"
flipperzero = "*"
flipperzero-sys = "*"
flipperzero-rt = "*"
