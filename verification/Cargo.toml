[package]
name = "mik32_hal"
version = "0.1.0"
edition = "2021"
publish = false

[dependencies]
mik32v2-pac = "*"
embedded-hal = "1"
embedded-hal-nb = "1"
nb = "1"
