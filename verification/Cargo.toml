[package]
name = "maze"
version = "0.1.0"
edition = "2021"
publish = false

[dependencies]
clap = { version = "=4.6.7", features = ["derive"] }
colored = "=2.2.0"
ethereum-types = "=0.14.1"
halo2_proofs = "=0.4.1"
halo2curves = "=0.1.0"
rand = "=0.8.8"
rand_chacha = "=0.3.1"
serde_json = "=1.0.154"
snark-verifier = { version = "=0.2.3", default-features = false, features = ["halo2-axiom", "loader_evm"] }
