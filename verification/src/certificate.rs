//! Certificate material: a self-signed certificate bound to the node's
//! identity key, and the SHA-256 fingerprint used for out-of-band pinning.

use vstd::prelude::*;
use sha2::Digest;

verus! {

/// Ceiling on the validity window the provider schedules for a
/// certificate, in milliseconds. Browser WebTransport clients reject
/// server certificates that are valid for longer than fourteen days, so
/// no certificate is scheduled to stay active longer than that.
pub const MAX_CERT_VALIDITY_MS: u64 = 14 * 24 * 60 * 60 * 1000;

/// The SHA-256 digest of a byte sequence. The digest is a function of the
/// input bytes alone; the library states nothing about its value on given
/// bytes.
pub uninterp spec fn sha256_of(bytes: Seq<u8>) -> Seq<u8>;

/// Whether the bytes are structurally a well-formed libp2p certificate
/// in DER form: the required identity extension is present and the
/// self-signature verifies. A function of the bytes alone; the library
/// states nothing about its value on given bytes. The parse the
/// configuration builder performs additionally checks the certificate's
/// embedded validity dates against the clock, so acceptance at a given
/// moment can depend on more than this verdict; only the structural part
/// is named.
pub uninterp spec fn libp2p_cert_ok(der: Seq<u8>) -> bool;

/// Whether the bytes are a DER private key that the TLS parameter
/// builder's ECDSA key loader accepts. A function of the bytes alone;
/// the library states nothing about its value on given bytes.
pub uninterp spec fn ecdsa_key_ok(der: Seq<u8>) -> bool;

/// Declares libp2p_identity::Keypair, the node's long-lived identity
/// keypair; opaque here, borrowed and never inspected.
#[verifier::external_type_specification]
#[verifier::external_body]
pub struct ExKeypair(libp2p_identity::Keypair);

/// Declares libp2p_tls::certificate::GenError, the error of certificate
/// generation; opaque here.
#[verifier::external_type_specification]
#[verifier::external_body]
pub struct ExGenError(libp2p_tls::certificate::GenError);

/// Relies on sha2::Sha256::digest: the SHA-256 digest of the input,
/// 32 bytes long and depending on the input bytes alone.
#[verifier::external_body]
fn sha256(bytes: &Vec<u8>) -> (r: Vec<u8>)
    ensures
        r@ == sha256_of(bytes@),
        r@.len() == 32,
{
    sha2::Sha256::digest(bytes.as_slice()).to_vec()
}

/// An element-for-element copy of a byte vector.
pub(crate) fn clone_bytes(v: &Vec<u8>) -> (r: Vec<u8>)
    ensures
        r@ == v@,
{
    let mut out: Vec<u8> = Vec::new();
    let mut i: usize = 0;
    while i < v.len()
        invariant
            i <= v.len(),
            out@ == v@.subrange(0, i as int),
        decreases v.len() - i,
    {
        out.push(v[i]);
        i = i + 1;
    }
    assert(out@ =~= v@);
    out
}

/// A certificate fingerprint: the SHA-256 digest of the DER-encoded
/// certificate bytes, pinned out of band by remote peers.
#[derive(Clone, Debug, PartialEq, Eq)]
pub struct CertHash {
    bytes: Vec<u8>,
}

impl View for CertHash {
    type V = Seq<u8>;

    closed spec fn view(&self) -> Seq<u8> {
        self.bytes@
    }
}

impl CertHash {
    /// A fingerprint is well formed when it has the fixed digest length.
    pub open spec fn well_formed(self) -> bool {
        self@.len() == 32
    }

    /// The digest bytes.
    pub fn as_bytes(&self) -> (r: &Vec<u8>)
        ensures
            r@ == self@,
    {
        &self.bytes
    }

    /// An identical copy of the fingerprint.
    pub fn duplicate(&self) -> (r: CertHash)
        ensures
            r@ == self@,
    {
        CertHash { bytes: clone_bytes(&self.bytes) }
    }
}

/// Error of the certificate material provider: the underlying signing
/// operation failed, for instance on unusable key material. Fatal for the
/// listener startup attempt that requested the certificate.
#[derive(Clone, Copy, Debug, PartialEq, Eq, Structural)]
pub struct CertificateGenerationError;

/// A self-signed certificate bound to the node's identity key, together
/// with its private key and the validity window the provider schedules
/// for it. The scheduled window is the provider's rotation bookkeeping —
/// the span within which this certificate is meant to be the active one
/// and before whose end it must be regenerated. It is not read from the
/// DER: the dates embedded in the certificate itself are the underlying
/// generator's own defaults, which this provider cannot set and does not
/// inspect.
pub struct Certificate {
    /// DER-encoded certificate bytes.
    pub cert: Vec<u8>,
    /// DER-encoded private key bytes.
    pub private_key: Vec<u8>,
    /// Start of the scheduled validity window, in milliseconds since the
    /// epoch.
    pub not_before_ms: u64,
    /// End of the scheduled validity window, in milliseconds since the
    /// epoch.
    pub not_after_ms: u64,
}

impl Certificate {
    /// A certificate is well formed when its scheduled validity window is
    /// ordered and no longer than the transport's ceiling.
    pub open spec fn well_formed(self) -> bool {
        &&& self.not_before_ms <= self.not_after_ms
        &&& self.not_after_ms - self.not_before_ms <= MAX_CERT_VALIDITY_MS
    }

    /// Relies on libp2p_tls::certificate::generate: a freshly generated
    /// self-signed certificate carrying the libp2p extension that binds it
    /// to the given identity keypair, returned as DER certificate bytes and
    /// DER private key bytes. Each call draws a fresh certificate keypair,
    /// so nothing is stated about the bytes themselves — only that the
    /// certificate is structurally well formed (generate signs it itself
    /// and embeds the extension the parse requires) and that the key is
    /// the PKCS#8 encoding of a fresh ECDSA P-256 key, which the TLS
    /// builder's key loader accepts.
    #[verifier::external_body]
    fn generate_der(
        keypair: &libp2p_identity::Keypair,
    ) -> (r: Result<(Vec<u8>, Vec<u8>), libp2p_tls::certificate::GenError>)
        ensures
            r matches Ok(p) ==> libp2p_cert_ok(p.0@) && ecdsa_key_ok(p.1@),
    {
        let (cert, key) = libp2p_tls::certificate::generate(keypair)?;
        Ok((cert.as_ref().to_vec(), key.secret_der().to_vec()))
    }

    /// Builds the certificate value from its parts. The scheduled
    /// validity window starts at `valid_from_ms` and spans the full
    /// ceiling.
    pub fn from_der(cert: Vec<u8>, private_key: Vec<u8>, valid_from_ms: u64) -> (r: Certificate)
        requires
            valid_from_ms + MAX_CERT_VALIDITY_MS <= u64::MAX,
        ensures
            r.cert@ == cert@,
            r.private_key@ == private_key@,
            r.not_before_ms == valid_from_ms,
            r.not_after_ms == valid_from_ms + MAX_CERT_VALIDITY_MS,
            r.well_formed(),
    {
        Certificate {
            cert,
            private_key,
            not_before_ms: valid_from_ms,
            not_after_ms: valid_from_ms + MAX_CERT_VALIDITY_MS,
        }
    }

    /// Produces a fresh identity-bound certificate and schedules its
    /// validity window from `valid_from_ms` over the full ceiling; the
    /// caller must regenerate before the window ends. The dates embedded
    /// in the DER itself are the underlying generator's defaults, not
    /// this window. Fails with `CertificateGenerationError` exactly when
    /// the underlying signing operation does; that is fatal for the
    /// caller's startup attempt, never retried here. Any certificate it
    /// produces is structurally well formed and its key is one the TLS
    /// parameter builder accepts.
    pub fn generate(
        keypair: &libp2p_identity::Keypair,
        valid_from_ms: u64,
    ) -> (r: Result<Certificate, CertificateGenerationError>)
        requires
            valid_from_ms + MAX_CERT_VALIDITY_MS <= u64::MAX,
        ensures
            r matches Ok(c) ==> {
                &&& c.well_formed()
                &&& c.not_before_ms == valid_from_ms
                &&& c.not_after_ms == valid_from_ms + MAX_CERT_VALIDITY_MS
                &&& libp2p_cert_ok(c.cert@)
                &&& ecdsa_key_ok(c.private_key@)
            },
    {
        match Self::generate_der(keypair) {
            Ok((cert, key)) => Ok(Self::from_der(cert, key, valid_from_ms)),
            Err(_) => Err(CertificateGenerationError),
        }
    }

    /// The fingerprint of the DER-encoded certificate bytes.
    pub fn cert_hash(&self) -> (r: CertHash)
        ensures
            r@ == sha256_of(self.cert@),
            r.well_formed(),
    {
        CertHash { bytes: sha256(&self.cert) }
    }
}

/// Hashing is deterministic: two certificates with byte-identical DER
/// encodings have the same fingerprint.
pub proof fn lemma_cert_hash_deterministic(c1: Certificate, c2: Certificate)
    requires
        c1.cert@ == c2.cert@,
    ensures
        sha256_of(c1.cert@) == sha256_of(c2.cert@),
{
}

/// The scheduled validity window of every well-formed certificate fits
/// the transport's maximum certificate lifetime.
pub proof fn lemma_validity_within_ceiling(c: Certificate)
    requires
        c.well_formed(),
    ensures
        c.not_after_ms - c.not_before_ms <= MAX_CERT_VALIDITY_MS,
{
}

} // verus!
