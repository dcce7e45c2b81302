[package]
name = "engine_lib"
version = "0.1.0"
edition = "2021"
publish = false

[dependencies]
winit = "0.30"
env_logger = "0.11"
log = "0.4"
ash = "0.38"
ash-window = "0.13"
