[package]
name = "delay_decode"
version = "0.1.0"
edition = "2021"
publish = false

[dependencies]
bitvec = "1"
tokio = { version = "1", features = ["sync", "time", "rt", "macros"] }
futures = "0.3"
