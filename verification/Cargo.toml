[package]
name = "avr_delay"
version = "0.1.0"
edition = "2021"
publish = false

[dependencies]
avr-config = { version = "=2.0.1", features = ["cpu-frequency"] }
