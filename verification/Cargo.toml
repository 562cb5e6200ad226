[package]
name = "shader_builder"
version = "0.1.0"
edition = "2021"
publish = false

[dependencies]
clap = { version = "4", features = ["derive"] }
futures = { version = "0.3", features = ["thread-pool"] }
notify = "6"
spirv-builder = "0.9"
tracing = "0.1"
tracing-subscriber = "0.3"
