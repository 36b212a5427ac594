[package]
name = "loopback_selftest"
version = "0.1.0"
edition = "2021"
publish = false

[dependencies]
heapless = "=0.7.17"
nb = "=1.1.0"
embedded-graphics = "=0.7.1"
gd32vf103xx-hal = "=0.5.0"
longan-nano = { version = "=0.3.0", features = ["lcd"] }
riscv = "=0.6.0"
riscv-rt = "0.8"
