[package]
name = "libp2p-noise"
version = "0.1.0"
edition = "2021"
publish = false

[dependencies]
blake2 = { version = "=0.8.1", default-features = false }
sha-1 = { version = "=0.8.2", default-features = false }
sha2 = { version = "=0.8.2", default-features = false }
sha3 = { version = "=0.8.2", default-features = false }
unsigned-varint = "=0.2.3"
rand = "=0.7.3"
log = "=0.4.34"
futures = "=0.1.31"
tokio-io = "=0.1.13"
libp2p-core = "=0.13.2"
ed25519-dalek = "=1.0.0-pre.3"
