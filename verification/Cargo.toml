[package]
name = "dual_hash_key"
version = "0.1.0"
edition = "2021"
publish = false

[dependencies]
const-fnv1a-hash = "*"
