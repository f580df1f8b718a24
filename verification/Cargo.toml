[package]
name = "artinchip_hal"
version = "0.1.0"
edition = "2021"
publish = false

[dependencies]
embedded-hal = "1.0"
volatile-register = "0.2"
