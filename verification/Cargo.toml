[package]
name = "zkvm_prover"
version = "0.1.0"
edition = "2021"
publish = false

[dependencies]
hex = "0.4"
risc0-zkp = "0.21"
