use libp2p_identity::Keypair;
use sha2::Digest;
use webtransport_config::certificate::{Certificate, MAX_CERT_VALIDITY_MS};
use webtransport_config::config::{alpn_protocols, Config, TlsConfigError};

fn test_certificate() -> Certificate {
    let keypair = Keypair::generate_ed25519();
    Certificate::generate(&keypair, 0).expect("certificate generation should succeed")
}

#[test]
fn generate_succeeds_for_valid_keypair() {
    let keypair = Keypair::generate_ed25519();
    let cert = Certificate::generate(&keypair, 1_000).expect("generation should succeed");
    assert!(!cert.cert.is_empty());
    assert!(!cert.private_key.is_empty());
    assert_eq!(cert.not_before_ms, 1_000);
    assert_eq!(cert.not_after_ms, 1_000 + MAX_CERT_VALIDITY_MS);
}

#[test]
fn validity_window_within_ceiling() {
    let cert = test_certificate();
    assert!(cert.not_before_ms <= cert.not_after_ms);
    assert!(cert.not_after_ms - cert.not_before_ms <= 14 * 24 * 60 * 60 * 1000);
}

#[test]
fn cert_hash_deterministic() {
    let cert = test_certificate();
    let twin = Certificate {
        cert: cert.cert.clone(),
        private_key: cert.private_key.clone(),
        not_before_ms: cert.not_before_ms,
        not_after_ms: cert.not_after_ms,
    };
    assert_eq!(cert.cert_hash(), cert.cert_hash());
    assert_eq!(cert.cert_hash(), twin.cert_hash());
}

#[test]
fn cert_hash_changes_on_single_byte_mutation() {
    let cert = test_certificate();
    let mut mutated_bytes = cert.cert.clone();
    mutated_bytes[0] ^= 0x01;
    let mutated = Certificate {
        cert: mutated_bytes,
        private_key: cert.private_key.clone(),
        not_before_ms: cert.not_before_ms,
        not_after_ms: cert.not_after_ms,
    };
    assert_ne!(cert.cert_hash(), mutated.cert_hash());
}

#[test]
fn cert_hash_is_sha256_of_der() {
    let cert = test_certificate();
    let expected = sha2::Sha256::digest(cert.cert.as_slice()).to_vec();
    assert_eq!(cert.cert_hash().as_bytes(), &expected);
    assert_eq!(cert.cert_hash().as_bytes().len(), 32);
}

#[test]
fn hash_duplicate_equals_original() {
    let hash = test_certificate().cert_hash();
    assert_eq!(hash.duplicate(), hash);
}

#[test]
fn default_configuration_round_trips_unchanged() {
    let keypair = Keypair::generate_ed25519();
    let cert = Certificate::generate(&keypair, 0).expect("generation should succeed");
    let config = Config::new(&keypair, cert).expect("construction should succeed");
    assert_eq!(config.handshake_timeout, 5_000);
    assert_eq!(config.max_idle_timeout, 10_000);
    assert_eq!(config.max_concurrent_stream_limit, 256);
    assert_eq!(config.max_stream_data, 10_000_000);
    assert_eq!(config.max_connection_data, 15_000_000);
    assert_eq!(config.keep_alive_interval, 5_000);
}

#[test]
fn advertised_hashes_match_active_certificate() {
    let keypair = Keypair::generate_ed25519();
    let cert = Certificate::generate(&keypair, 0).expect("generation should succeed");
    let expected = cert.cert_hash();
    let config = Config::new(&keypair, cert).expect("construction should succeed");
    let hashes = config.cert_hashes();
    assert_eq!(hashes.len(), 1);
    assert_eq!(hashes[0], expected);
}

#[test]
fn effective_handshake_timeout_is_min_of_handshake_and_idle() {
    let keypair = Keypair::generate_ed25519();
    let cert = Certificate::generate(&keypair, 0).expect("generation should succeed");
    let config = Config::new(&keypair, cert).expect("construction should succeed");
    assert_eq!(
        config.effective_handshake_timeout(),
        config.handshake_timeout.min(config.max_idle_timeout as u64)
    );
    assert_eq!(config.effective_handshake_timeout(), 5_000);
}

#[test]
fn alpn_list_is_idempotent_and_order_preserving() {
    let first = alpn_protocols();
    let second = alpn_protocols();
    assert_eq!(first, second);
    let expected: Vec<Vec<u8>> = vec![
        b"libp2p".to_vec(),
        b"h3".to_vec(),
        b"h3-32".to_vec(),
        b"h3-31".to_vec(),
        b"h3-30".to_vec(),
        b"h3-29".to_vec(),
    ];
    assert_eq!(first, expected);
}

#[test]
fn truncated_key_yields_tls_config_error() {
    let keypair = Keypair::generate_ed25519();
    let cert = Certificate::generate(&keypair, 0).expect("generation should succeed");
    let mut truncated_key = cert.private_key.clone();
    truncated_key.truncate(truncated_key.len() / 2);
    let corrupted = Certificate {
        cert: cert.cert.clone(),
        private_key: truncated_key,
        not_before_ms: cert.not_before_ms,
        not_after_ms: cert.not_after_ms,
    };
    assert_eq!(Config::new(&keypair, corrupted).err(), Some(TlsConfigError));
}

#[test]
fn garbage_certificate_yields_tls_config_error() {
    let keypair = Keypair::generate_ed25519();
    let cert = Certificate::generate(&keypair, 0).expect("generation should succeed");
    let corrupted = Certificate {
        cert: vec![0u8; 16],
        private_key: cert.private_key.clone(),
        not_before_ms: cert.not_before_ms,
        not_after_ms: cert.not_after_ms,
    };
    assert_eq!(Config::new(&keypair, corrupted).err(), Some(TlsConfigError));
}
