[package]
name = "webtransport_config"
version = "0.1.0"
edition = "2021"
publish = false

[dependencies]
libp2p-identity = { version = "*", features = ["ed25519", "rand"] }
libp2p-tls = "*"
rustls = "*"
wtransport = "*"
sha2 = "*"
