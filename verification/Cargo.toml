[package]
name = "aqueduct"
version = "0.1.0"
edition = "2021"
publish = false

[dependencies]
ed25519-dalek = { version = "2", features = ["pkcs8", "rand_core"] }
rand = "0.8"
bytes = "1"
serde = { version = "1", features = ["derive"] }
serde_json = "1"
anyhow = "1"
thiserror = "1"
tokio = { version = "1", features = ["rt", "rt-multi-thread", "time", "sync", "macros"] }
smallvec = "1"
quinn = "0.11"
rustls = "0.23"
rcgen = "0.13"
x509-parser = "0.16"
dashmap = "6"
flume = "0.11"
futures = "0.3"
tracing = "0.1"
