[package]
name = "memtest_vulkan"
version = "0.1.0"
edition = "2021"
publish = false

[dependencies]
erupt = "*"
naga = { version = "*", features = ["wgsl-in", "spv-out"] }
