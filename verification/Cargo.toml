[package]
name = "spark_wallet"
version = "0.1.0"
edition = "2021"
publish = false

[dependencies]
bitcoin = { version = "0.32", features = ["rand-std"] }
frost-secp256k1-tr = "2"
graphql_client = { version = "0.14", default-features = false }
hex = "0.4"
k256 = "0.13"
serde = { version = "1", features = ["derive"] }
serde_json = "1"
