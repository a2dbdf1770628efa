[package]
name = "tee_oprf"
version = "0.1.0"
edition = "2021"
publish = false

[dependencies]
ark-bn254 = "=0.6.0"
ark-ec = "=0.6.0"
ark-ff = "=0.6.0"
ark-serialize = "=0.6.0"
ark-std = "=0.6.0"
sha2 = "=0.11.0"
hex = "=0.4.3"
serde = { version = "=1.0.229", features = ["derive"] }
serde_json = "=1.0.151"
serde_cbor = "=0.11.2"
nix = { version = "=0.31.3", features = ["socket"] }
rand = "=0.8.8"
tempfile = "=3.27.0"
aws-nitro-enclaves-nsm-api = "=0.5.2"
