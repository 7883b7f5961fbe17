[package]
name = "stm32l0x3_hal"
version = "0.1.0"
edition = "2021"
publish = false

[dependencies]
embedded-hal = "0.2"
stm32l0x3 = "*"
