//! Validating the PEM material a TLS listener is configured with.
//!
//! The certificate chain and the private key arrive as PEM bytes. Both must
//! parse, and the key material must hold exactly one PKCS#8 private key:
//! zero keys or several are a fatal configuration error. What comes out are
//! the raw DER payloads; building the actual TLS context from them is the
//! transport's business.

use vstd::prelude::*;

verus! {

/// The DER payloads of the certificate sections of a PEM byte sequence, or
/// `None` when the sections do not parse.
pub uninterp spec fn pem_certificates(pem: Seq<u8>) -> Option<Seq<Seq<u8>>>;

/// The DER payloads of the PKCS#8 private-key sections of a PEM byte
/// sequence, or `None` when the sections do not parse.
pub uninterp spec fn pem_pkcs8_keys(pem: Seq<u8>) -> Option<Seq<Seq<u8>>>;

/// A fatal configuration error in the supplied TLS material.
#[derive(Clone, Copy, PartialEq, Eq, Structural, Debug)]
pub enum ConfigError {
    /// The certificate or key bytes do not parse as PEM.
    InvalidPem,
    /// The key material holds this many private keys instead of exactly one.
    KeyCount(usize),
}

/// Validated TLS material: the DER certificate chain and the single DER
/// private key.
#[derive(PartialEq, Eq, Debug)]
pub struct TlsMaterial {
    pub cert_chain: Vec<Vec<u8>>,
    pub key: Vec<u8>,
}

/// Relies on rustls_pemfile::certs reading from an in-memory cursor: the DER
/// contents of the certificate sections, a function of the bytes alone.
#[verifier::external_body]
pub(crate) fn read_pem_certificates(pem: &[u8]) -> (r: Option<Vec<Vec<u8>>>)
    ensures
        r is Some <==> pem_certificates(pem@) is Some,
        r matches Some(v) ==> Some(v.deep_view()) == pem_certificates(pem@),
{
    rustls_pemfile::certs(&mut std::io::Cursor::new(pem)).ok()
}

/// Relies on rustls_pemfile::pkcs8_private_keys reading from an in-memory
/// cursor: the DER contents of the PKCS#8 key sections, a function of the
/// bytes alone.
#[verifier::external_body]
pub(crate) fn read_pem_pkcs8_keys(pem: &[u8]) -> (r: Option<Vec<Vec<u8>>>)
    ensures
        r is Some <==> pem_pkcs8_keys(pem@) is Some,
        r matches Some(v) ==> Some(v.deep_view()) == pem_pkcs8_keys(pem@),
{
    rustls_pemfile::pkcs8_private_keys(&mut std::io::Cursor::new(pem)).ok()
}

/// Validate PEM certificate and key material. Fails when either does not
/// parse, or when the key material does not hold exactly one private key;
/// succeeds with the parsed chain and the one key otherwise.
pub fn build_tls_material(cert_pem: &[u8], key_pem: &[u8]) -> (r: Result<TlsMaterial, ConfigError>)
    ensures
        r is Ok <==> {
            &&& pem_certificates(cert_pem@) is Some
            &&& pem_pkcs8_keys(key_pem@) is Some
            &&& pem_pkcs8_keys(key_pem@)->Some_0.len() == 1
        },
        r matches Ok(m) ==> Some(m.cert_chain.deep_view()) == pem_certificates(cert_pem@),
        r matches Ok(m) ==> m.key.deep_view() == pem_pkcs8_keys(key_pem@)->Some_0[0],
        r == Err::<TlsMaterial, ConfigError>(ConfigError::InvalidPem) <==> (pem_certificates(
            cert_pem@,
        ) is None || pem_pkcs8_keys(key_pem@) is None),
        r matches Err(e) ==> (e matches ConfigError::KeyCount(n) ==> pem_pkcs8_keys(key_pem@)
            matches Some(ks) && ks.len() == n && n != 1),
{
    let cert_chain = match read_pem_certificates(cert_pem) {
        None => {
            return Err(ConfigError::InvalidPem);
        },
        Some(c) => c,
    };
    let mut keys = match read_pem_pkcs8_keys(key_pem) {
        None => {
            return Err(ConfigError::InvalidPem);
        },
        Some(k) => k,
    };
    if keys.len() != 1 {
        return Err(ConfigError::KeyCount(keys.len()));
    }
    let key = keys.remove(0);
    Ok(TlsMaterial { cert_chain, key })
}

} // verus!
