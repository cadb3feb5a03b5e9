[package]
name = "ctv_vectors"
version = "0.1.0"
edition = "2021"
publish = false

[dependencies]
bitcoin = "*"
bitcoincore-rpc = "*"
clap = { version = "*", features = ["derive"] }
rand = "*"
rand_chacha = "*"
serde = { version = "*", features = ["derive"] }
serde_json = "*"
