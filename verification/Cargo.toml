[package]
name = "vectorx"
version = "0.1.0"
edition = "2021"
publish = false

[dependencies]
sp-core = "=43.0.0"
sha2 = "=0.11.0"
blake2 = "=0.11.0"
