[package]
name = "parallel_bus"
version = "0.1.0"
edition = "2021"
publish = false

[dependencies]
embedded-hal = "0.2"
generic-array = "0.14"
