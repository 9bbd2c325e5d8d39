[package]
name = "p3_miden_prover"
version = "0.1.0"
edition = "2021"
publish = false

[dependencies]
p3-matrix = "0.4.2"
p3-util = "0.4.2"
p3-air = "0.4.2"
p3-field = "0.4.2"

[dev-dependencies]
p3-goldilocks = "0.4.2"
