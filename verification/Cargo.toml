[package]
name = "ndbank"
version = "0.1.0"
edition = "2021"
publish = false

[dependencies]
clap = { version = "*", features = ["derive"] }
probe-rs = "*"
stm32-metapac = { version = "*", features = ["stm32f767zi"] }
tracing-subscriber = { version = "*", features = ["env-filter"] }
