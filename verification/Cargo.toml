[package]
name = "greentic-types"
version = "0.1.0"
edition = "2021"
publish = false

[dependencies]
blake3 = { version = "=1.8.7", features = ["pure"] }
chrono = { version = "0.4", default-features = false }
ciborium = "=0.2.2"
fnv = "=1.0.7"
indexmap = "=2.14.2"
semver = "=1.0.28"
serde = { version = "=1.0.229", features = ["derive"] }
serde_bytes = "=0.11.19"
serde_json = "=1.0.154"
thiserror = "=1.0.69"
time = "=0.3.55"
unic-langid = "=0.9.6"
uuid = { version = "=1.29.0", features = ["v4"] }
