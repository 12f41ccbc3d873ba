//! The connection parameter set: the TLS server configuration built from
//! the active certificate, the advertised fingerprint list, and the fixed
//! numeric limits a listener applies to every accepted connection.

use vstd::prelude::*;
use crate::certificate::{ecdsa_key_ok, libp2p_cert_ok, sha256_of, CertHash, Certificate};
use wtransport::config::TlsServerConfig;

verus! {

/// Default handshake deadline, in milliseconds. The deadline the runtime
/// effectively applies is this value capped by `max_idle_timeout`.
pub const DEFAULT_HANDSHAKE_TIMEOUT_MS: u64 = 5 * 1000;

/// Default maximum duration of inactivity before a connection times out,
/// in milliseconds.
pub const DEFAULT_MAX_IDLE_TIMEOUT_MS: u32 = 10 * 1000;

/// Default ceiling on concurrently open incoming bidirectional streams.
pub const DEFAULT_MAX_CONCURRENT_STREAM_LIMIT: u32 = 256;

/// Default ceiling on unacknowledged bytes of a single stream. Kept below
/// the connection ceiling so one stream cannot consume the whole
/// connection.
pub const DEFAULT_MAX_STREAM_DATA: u32 = 10_000_000;

/// Default ceiling on unacknowledged bytes over all streams of a
/// connection.
pub const DEFAULT_MAX_CONNECTION_DATA: u32 = 15_000_000;

/// Default period of inactivity before a keep-alive packet is sent, in
/// milliseconds. Effective only while strictly below the idle timeout of
/// both peers; the remote side's value is a cooperative, not guaranteed,
/// contract.
pub const DEFAULT_KEEP_ALIVE_INTERVAL_MS: u64 = 5 * 1000;

/// Declares rustls::ServerConfig, the TLS server configuration the
/// handshake engine consumes; opaque here, carried through unchanged.
#[verifier::external_type_specification]
#[verifier::external_body]
pub struct ExServerConfig(rustls::ServerConfig);

/// Declares rustls::Error, the error of the TLS parameter builder;
/// opaque here, mapped to the library's own error.
#[verifier::external_type_specification]
#[verifier::external_body]
pub struct ExRustlsError(rustls::Error);

/// The fixed, ordered list of application protocol identifiers advertised
/// during negotiation: the base overlay protocol identifier first, then
/// one identifier per supported HTTP/3 draft version, newest first.
pub open spec fn alpn_ids() -> Seq<Seq<u8>> {
    seq![
        seq![108u8, 105u8, 98u8, 112u8, 50u8, 112u8], // "libp2p"
        seq![104u8, 51u8],                            // "h3"
        seq![104u8, 51u8, 45u8, 51u8, 50u8],          // "h3-32"
        seq![104u8, 51u8, 45u8, 51u8, 49u8],          // "h3-31"
        seq![104u8, 51u8, 45u8, 51u8, 48u8],          // "h3-30"
        seq![104u8, 51u8, 45u8, 50u8, 57u8],          // "h3-29"
    ]
}

/// The application protocol identifiers handed to the TLS parameter
/// builder, exactly `alpn_ids` in content and order.
pub fn alpn_protocols() -> (r: Vec<Vec<u8>>)
    ensures
        r.deep_view() == alpn_ids(),
{
    let r: Vec<Vec<u8>> = vec![
        vec![108u8, 105u8, 98u8, 112u8, 50u8, 112u8],
        vec![104u8, 51u8],
        vec![104u8, 51u8, 45u8, 51u8, 50u8],
        vec![104u8, 51u8, 45u8, 51u8, 49u8],
        vec![104u8, 51u8, 45u8, 51u8, 48u8],
        vec![104u8, 51u8, 45u8, 50u8, 57u8],
    ];
    proof {
        assert(r.deep_view() =~~= alpn_ids());
    }
    r
}

/// Declares libp2p_tls::certificate::ParseError, the error of
/// certificate parsing; opaque here, mapped to the library's own error.
#[verifier::external_type_specification]
#[verifier::external_body]
pub struct ExParseError(libp2p_tls::certificate::ParseError);

/// Relies on libp2p_tls::certificate::parse: it accepts only DER bytes
/// that are structurally a well-formed libp2p certificate — carrying the
/// required identity extension and a valid self-signature, the verdict
/// `libp2p_cert_ok` names — so a structurally invalid certificate is
/// always rejected. Parse also checks the certificate's embedded validity
/// dates against the clock, so success is not promised of any bytes: a
/// structurally valid certificate can still be rejected once its embedded
/// window has passed.
#[verifier::external_body]
fn check_libp2p_cert(cert_der: &Vec<u8>) -> (r: Result<(), libp2p_tls::certificate::ParseError>)
    ensures
        r is Ok ==> libp2p_cert_ok(cert_der@),
{
    let cert = rustls::pki_types::CertificateDer::from(cert_der.clone());
    match libp2p_tls::certificate::parse(&cert) {
        Ok(_) => Ok(()),
        Err(e) => Err(e),
    }
}

/// Relies on rustls::ServerConfig's builder together with the provider's
/// ECDSA key loader (any_ecdsa_type) and the single-certificate resolver
/// (SingleCertAndKey): a TLS 1.3 server configuration that resolves every
/// handshake to exactly the given DER certificate and key and advertises
/// the given protocol list. It fails exactly when the private key does
/// not parse as an ECDSA key — the verdict `ecdsa_key_ok` names, a
/// function of the key bytes alone: protocol-version selection cannot
/// fail (the provider's default cipher suites cover TLS 1.3) and the
/// remaining constructors are infallible. The configuration value is
/// opaque here, so nothing more is stated about it.
#[verifier::external_body]
fn build_server_config(
    cert_der: &Vec<u8>,
    key_der: &Vec<u8>,
    alpn: Vec<Vec<u8>>,
) -> (r: Result<rustls::ServerConfig, rustls::Error>)
    ensures
        r is Ok <==> ecdsa_key_ok(key_der@),
{
    let cert = rustls::pki_types::CertificateDer::from(cert_der.clone());
    let key = match rustls::pki_types::PrivateKeyDer::try_from(key_der.clone()) {
        Ok(k) => k,
        Err(e) => return Err(rustls::Error::General(e.to_string())),
    };
    let key = rustls::crypto::aws_lc_rs::sign::any_ecdsa_type(&key)?;
    let resolver = rustls::sign::SingleCertAndKey::from(rustls::sign::CertifiedKey::new(vec![cert], key));
    let mut config = rustls::ServerConfig::builder_with_provider(
        rustls::crypto::aws_lc_rs::default_provider().into(),
    ).with_protocol_versions(&[&rustls::version::TLS13])?
        .with_no_client_auth()
        .with_cert_resolver(std::sync::Arc::new(resolver));
    config.alpn_protocols = alpn;
    Ok(config)
}

/// Relies on Clone for libp2p_identity::Keypair: the derived clone
/// copies the key material, so the copy is an equal value carrying the
/// same identity.
pub assume_specification[ <libp2p_identity::Keypair as Clone>::clone ](
    keypair: &libp2p_identity::Keypair,
) -> (r: libp2p_identity::Keypair)
    ensures
        r == *keypair,
;

/// Relies on Clone for rustls::ServerConfig. The value is opaque here,
/// so nothing is stated about the copy.
pub assume_specification[ <rustls::ServerConfig as Clone>::clone ](
    config: &rustls::ServerConfig,
) -> rustls::ServerConfig;

/// Error of the TLS server parameter builder: the certificate and key are
/// structurally invalid or incompatible with the required handshake
/// variant. Fatal for the listener startup attempt; the listener must not
/// start under an invalid certificate.
#[derive(Clone, Copy, Debug, PartialEq, Eq, Structural)]
pub struct TlsConfigError;

/// The immutable connection parameter set a listener consumes once at
/// startup: numeric limits, the built TLS server configuration, the
/// node's identity keypair and the advertised certificate fingerprint.
#[derive(Clone)]
pub struct Config {
    /// Timeout for the initial handshake when establishing a connection,
    /// in milliseconds. The timeout the runtime effectively applies is the
    /// minimum of this and `max_idle_timeout`.
    pub handshake_timeout: u64,

    /// Maximum duration of inactivity in ms to accept before timing out
    /// the connection.
    pub max_idle_timeout: u32,

    /// Maximum number of incoming bidirectional streams that may be open
    /// concurrently by the remote peer.
    pub max_concurrent_stream_limit: u32,

    /// Max unacknowledged data in bytes that may be sent on a single
    /// stream.
    pub max_stream_data: u32,

    /// Max unacknowledged data in bytes that may be sent in total on all
    /// streams of a connection.
    pub max_connection_data: u32,

    /// Period of inactivity in ms before sending a keep-alive packet.
    /// Must be set lower than the idle timeout of both peers to be
    /// effective.
    pub keep_alive_interval: u64,

    /// The TLS server configuration the handshake engine consumes
    /// verbatim at connection-accept time.
    pub server_tls_config: TlsServerConfig,

    /// Identity of the node.
    pub keypair: libp2p_identity::Keypair,

    /// The fingerprint of the active certificate, advertised out of band.
    pub cert_hash: CertHash,

    /// The DER bytes of the certificate the TLS configuration was built
    /// from, kept to state that the advertised fingerprint never drifts
    /// from the active certificate.
    pub cert_der: Ghost<Seq<u8>>,
}

impl Config {
    /// The DER bytes of the certificate this configuration was built from.
    pub open spec fn active_cert_der(self) -> Seq<u8> {
        self.cert_der@
    }

    /// The fingerprint this configuration advertises.
    pub open spec fn advertised_hash(self) -> Seq<u8> {
        self.cert_hash@
    }

    /// A configuration is well formed when its advertised fingerprint is
    /// the digest of the active certificate, the keep-alive interval is
    /// strictly below the idle timeout, and one stream's flow-control
    /// ceiling does not exceed the connection's.
    pub open spec fn well_formed(self) -> bool {
        &&& self.advertised_hash() == sha256_of(self.active_cert_der())
        &&& self.advertised_hash().len() == 32
        &&& self.keep_alive_interval < self.max_idle_timeout as u64
        &&& self.max_stream_data <= self.max_connection_data
    }

    /// Assembles the parameter set from the identity keypair, the active
    /// certificate and an already built TLS server configuration, with the
    /// fixed numeric defaults. Total: every field is pinned exactly, the
    /// TLS configuration and the identity keypair are carried unchanged,
    /// nothing is clamped.
    pub fn from_parts(
        keypair: &libp2p_identity::Keypair,
        cert: &Certificate,
        server_tls_config: TlsServerConfig,
    ) -> (c: Config)
        ensures
            c.server_tls_config == server_tls_config,
            c.keypair == *keypair,
            c.handshake_timeout == DEFAULT_HANDSHAKE_TIMEOUT_MS,
            c.max_idle_timeout == DEFAULT_MAX_IDLE_TIMEOUT_MS,
            c.max_concurrent_stream_limit == DEFAULT_MAX_CONCURRENT_STREAM_LIMIT,
            c.max_stream_data == DEFAULT_MAX_STREAM_DATA,
            c.max_connection_data == DEFAULT_MAX_CONNECTION_DATA,
            c.keep_alive_interval == DEFAULT_KEEP_ALIVE_INTERVAL_MS,
            c.active_cert_der() == cert.cert@,
            c.advertised_hash() == sha256_of(cert.cert@),
            c.well_formed(),
    {
        let cert_hash = cert.cert_hash();
        Config {
            handshake_timeout: DEFAULT_HANDSHAKE_TIMEOUT_MS,
            max_idle_timeout: DEFAULT_MAX_IDLE_TIMEOUT_MS,
            max_concurrent_stream_limit: DEFAULT_MAX_CONCURRENT_STREAM_LIMIT,
            max_stream_data: DEFAULT_MAX_STREAM_DATA,
            max_connection_data: DEFAULT_MAX_CONNECTION_DATA,
            keep_alive_interval: DEFAULT_KEEP_ALIVE_INTERVAL_MS,
            server_tls_config,
            keypair: keypair.clone(),
            cert_hash,
            cert_der: Ghost(cert.cert@),
        }
    }

    /// Builds the TLS server configuration for the given certificate and
    /// assembles the parameter set around it. Any failure surfaces as
    /// `TlsConfigError`, yielding no configuration at all, so a listener
    /// can never start under an invalid certificate. Success is owed only
    /// to inputs the outside checks accept: a structurally invalid
    /// certificate or a key the TLS builder rejects always fails, and a
    /// structurally valid certificate can still be rejected when its
    /// embedded validity dates do not cover the moment of the call.
    pub fn new(keypair: &libp2p_identity::Keypair, cert: Certificate) -> (r: Result<
        Config,
        TlsConfigError,
    >)
        ensures
            r is Ok ==> libp2p_cert_ok(cert.cert@) && ecdsa_key_ok(cert.private_key@),
            r matches Ok(c) ==> {
                &&& c.well_formed()
                &&& c.keypair == *keypair
                &&& c.handshake_timeout == DEFAULT_HANDSHAKE_TIMEOUT_MS
                &&& c.max_idle_timeout == DEFAULT_MAX_IDLE_TIMEOUT_MS
                &&& c.max_concurrent_stream_limit == DEFAULT_MAX_CONCURRENT_STREAM_LIMIT
                &&& c.max_stream_data == DEFAULT_MAX_STREAM_DATA
                &&& c.max_connection_data == DEFAULT_MAX_CONNECTION_DATA
                &&& c.keep_alive_interval == DEFAULT_KEEP_ALIVE_INTERVAL_MS
                &&& c.active_cert_der() == cert.cert@
                &&& c.advertised_hash() == sha256_of(cert.cert@)
            },
    {
        if check_libp2p_cert(&cert.cert).is_err() {
            return Err(TlsConfigError);
        }
        match build_server_config(&cert.cert, &cert.private_key, alpn_protocols()) {
            Ok(tls) => Ok(Self::from_parts(keypair, &cert, tls)),
            Err(_) => Err(TlsConfigError),
        }
    }

    /// The hash list advertised out of band. It holds exactly one element:
    /// the fingerprint of the currently active certificate, the one the
    /// live TLS configuration was built from. The sequence return type
    /// leaves room for an old-plus-new overlap during rotation without
    /// breaking callers.
    pub fn cert_hashes(&self) -> (r: Vec<CertHash>)
        ensures
            r@.len() == 1,
            r@[0]@ == self.advertised_hash(),
            self.well_formed() ==> r@[0]@ == sha256_of(self.active_cert_der()),
    {
        let mut r: Vec<CertHash> = Vec::new();
        r.push(self.cert_hash.duplicate());
        r
    }

    /// The handshake deadline the runtime effectively applies: the
    /// configured handshake timeout capped by the idle timeout.
    pub fn effective_handshake_timeout(&self) -> (r: u64)
        ensures
            r as int == vstd::math::min(
                self.handshake_timeout as int,
                self.max_idle_timeout as int,
            ),
    {
        if self.handshake_timeout <= self.max_idle_timeout as u64 {
            self.handshake_timeout
        } else {
            self.max_idle_timeout as u64
        }
    }
}

/// The advertised hash list never drifts from the active certificate: a
/// well-formed configuration whose advertised list is as `cert_hashes`
/// returns it contains the digest of the certificate its live TLS
/// configuration was built from.
pub proof fn lemma_no_hash_drift(c: Config, hashes: Seq<Seq<u8>>)
    requires
        c.well_formed(),
        hashes.len() == 1,
        hashes[0] == c.advertised_hash(),
    ensures
        exists|i: int| 0 <= i < hashes.len() && hashes[i] == sha256_of(c.active_cert_der()),
{
    assert(hashes[0] == sha256_of(c.active_cert_der()));
}

/// Protocol list construction is idempotent and order-preserving: any two
/// lists the builder produces are identical in content and order.
pub proof fn lemma_alpn_stable(a: Seq<Seq<u8>>, b: Seq<Seq<u8>>)
    requires
        a == alpn_ids(),
        b == alpn_ids(),
    ensures
        a == b,
{
}

} // verus!
