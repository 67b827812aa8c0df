[package]
name = "infers"
version = "0.1.0"
edition = "2021"
publish = false

[dependencies]
bytemuck = "1"
thiserror = "2"
parking_lot = "0.12"
ash = "0.38"
gpu-allocator = { version = "0.27", default-features = false, features = ["vulkan"] }
tempfile = "3"
uniffi = { version = "0.28", default-features = false }
