[package]
name = "programs"
version = "0.1.0"
edition = "2021"
publish = false

[dependencies]
wasmer = { version = "=6.1.0", default-features = false, features = ["sys", "compiler", "cranelift"] }
wasmer-types = "=6.1.0"
