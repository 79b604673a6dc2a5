[package]
name = "bc6h_compression"
version = "0.1.0"
edition = "2021"
publish = false

[dependencies]
wgpu = { version = "*", features = ["spirv"] }
zstd = "*"
pollster = "*"
