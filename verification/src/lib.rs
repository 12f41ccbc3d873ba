//! Trust-establishment and resource-limit configuration for a
//! certificate-hash-pinned QUIC/WebTransport listener.
//!
//! The library produces a short-lived, identity-bound self-signed
//! certificate, computes the SHA-256 fingerprint that remote peers pin
//! out of band, builds the TLS server configuration that presents that
//! certificate, and assembles the immutable set of connection parameters
//! (timeouts, concurrency and flow-control limits) that a listener
//! applies to every accepted connection.

pub mod certificate;
pub mod config;
