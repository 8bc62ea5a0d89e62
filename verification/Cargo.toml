[package]
name = "nice_view"
version = "0.1.0"
edition = "2021"
publish = false

[dependencies]
itoa = "=1.0.18"
embedded-graphics = "=0.7.1"
embedded-hal = "=0.2.7"
sharp-memory-display = "=0.3.0"
