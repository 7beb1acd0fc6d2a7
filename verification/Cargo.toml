[package]
name = "glutin_shim"
version = "0.1.0"
edition = "2021"
publish = false

[dependencies]
glutin = "0.26"
gleam = "0.13"
log = "0.4"
env_logger = "0.8"
