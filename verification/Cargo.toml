[package]
name = "enclave_proc"
version = "0.1.0"
edition = "2021"
publish = false

[dependencies]
libc = "=0.2.190"
log = "=0.4.34"
nix = "=0.26.4"
procinfo = "=0.4.2"
serde = { version = "=1.0.229", features = ["derive"] }
serde_cbor = "=0.11.2"
