[package]
name = "uartflash"
version = "0.1.0"
edition = "2021"
publish = false

[dependencies]
serialport5 = { version = "=5.0.2", default-features = false }
