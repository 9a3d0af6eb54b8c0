[package]
name = "mldsa_signer"
version = "0.1.0"
edition = "2021"
publish = false

[dependencies]
base64 = "=0.23.1"
ml-dsa = "=0.0.4"
clap = { version = "=4.6.7", features = ["derive"] }

[dev-dependencies]
rand = "=0.8.8"
