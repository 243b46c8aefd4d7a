[package]
name = "cacheline_aligned_atomics"
version = "0.1.0"
edition = "2021"
publish = false

[dependencies]
threadpool = "*"
