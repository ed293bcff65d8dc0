[package]
name = "firmware"
version = "0.1.0"
edition = "2021"
publish = false

[dependencies]
esp32c3 = "=0.5.1"
riscv = "=0.8.0"
