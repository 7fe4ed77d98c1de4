[package]
name = "adm_engine_worker"
version = "0.1.0"
edition = "2021"
publish = false

[dependencies]
libc = "=0.2.191"
mcai_worker_sdk = "=1.0.0"
schemars = "=0.8.22"
serde = "=1.0.229"
serde_derive = "=1.0.229"
