[package]
name = "badapple_demo"
version = "0.1.0"
edition = "2021"
publish = false

[dependencies]
embedded-graphics = "0.7"
embedded-sdmmc = "0.3"
longan-nano = { version = "0.3", features = ["lcd", "sdcard"] }
panic-halt = "0.2"
riscv-rt = "0.8"
