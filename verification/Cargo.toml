[package]
name = "drand_bench"
version = "0.1.0"
edition = "2021"
publish = false

[dependencies]
ark-ff = "0.4"
ark-ec = "0.4"
ark-bls12-381 = "0.4"
sha2 = "0.10"
hex = "0.4"
serde = { version = "1", features = ["derive"] }
serde_json = "1"
anyhow = "1"
reqwest = { version = "0.12", default-features = false, features = ["blocking", "rustls-tls"] }
