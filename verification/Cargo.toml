[package]
name = "halo2_verifier"
version = "0.1.0"
edition = "2021"
publish = false

[dependencies]
parity-scale-codec = { version = "=3.7.5", features = ["derive", "max-encoded-len"] }
frame-support = "=49.0.1"
sp-core = "=43.0.0"
sp-io = "=49.0.0"
sp-std = "=14.0.0"
