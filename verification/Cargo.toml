[package]
name = "ark_circuit"
version = "0.1.0"
edition = "2021"
publish = false

[dependencies]
ark-ec = "0.5"
ark-ff = "0.5"
ark-r1cs-std = "0.5"
ark-relations = "0.5"
ark-serialize = "0.5"
ark-std = "0.5"
ark-bls12-377 = { version = "0.5", features = ["curve", "r1cs"] }
ark-ed-on-bls12-381 = { version = "0.5", features = ["r1cs"] }
