[package]
name = "llc_coloring"
version = "0.1.0"
edition = "2021"
publish = false

[dependencies]
spin = "*"
buddy_system_allocator = "*"
aarch64-cpu = "*"
loongArch64 = "*"
