//! The certificate chain and the private key of the service, read from
//! the text of their PEM files.

use crate::text::{decimal_text, push_decimal};
use vstd::prelude::*;
use vstd::string::*;

verus! {

/// The DER contents of the `CERTIFICATE` sections of a PEM text, in their
/// order, or `None` where the text is no well-formed PEM.
pub uninterp spec fn pem_certificates(pem: Seq<u8>) -> Option<Seq<Seq<u8>>>;

/// The DER contents of the `PRIVATE KEY` sections of a PEM text, in their
/// order, or `None` where the text is no well-formed PEM.
pub uninterp spec fn pem_pkcs8_keys(pem: Seq<u8>) -> Option<Seq<Seq<u8>>>;

/// Calls `rustls_pemfile::certs` on the bytes as a reader. The result is a
/// function of the bytes alone; reading from memory has no other failure
/// than the one that the parser reports.
#[verifier::external_body]
fn read_certificates(pem: &[u8]) -> (r: Option<Vec<Vec<u8>>>)
    ensures
        r.deep_view() == pem_certificates(pem@),
{
    let mut reader = pem;
    rustls_pemfile::certs(&mut reader).ok()
}

/// Calls `rustls_pemfile::pkcs8_private_keys` on the bytes as a reader.
/// The result is a function of the bytes alone; reading from memory has no
/// other failure than the one that the parser reports.
#[verifier::external_body]
fn read_pkcs8_keys(pem: &[u8]) -> (r: Option<Vec<Vec<u8>>>)
    ensures
        r.deep_view() == pem_pkcs8_keys(pem@),
{
    let mut reader = pem;
    rustls_pemfile::pkcs8_private_keys(&mut reader).ok()
}

/// Why the certificate chain or the private key could not be had.
#[derive(Clone, Copy, Debug, PartialEq, Eq, Structural)]
pub enum TlsError {
    /// The certificate file is no well-formed PEM.
    BadCertificates,
    /// The key file is no well-formed PEM.
    BadKeys,
    /// The key file holds no key, or more than one.
    NotOneKey { found: usize },
}

/// The one key of a list of keys. A list of any other length is refused,
/// with its length.
pub open spec fn single_key_of(keys: Seq<Seq<u8>>) -> Result<Seq<u8>, TlsError> {
    if keys.len() == 1 {
        Ok(keys[0])
    } else {
        Err(TlsError::NotOneKey { found: keys.len() as usize })
    }
}

/// The private key that a PEM text holds: its one `PRIVATE KEY` section.
pub open spec fn private_key_of(pem: Seq<u8>) -> Result<Seq<u8>, TlsError> {
    match pem_pkcs8_keys(pem) {
        Some(keys) => single_key_of(keys),
        None => Err(TlsError::BadKeys),
    }
}

/// The certificate chain that a PEM text holds: its `CERTIFICATE`
/// sections, which may be none.
pub open spec fn certificates_of(pem: Seq<u8>) -> Result<Seq<Seq<u8>>, TlsError> {
    match pem_certificates(pem) {
        Some(certificates) => Ok(certificates),
        None => Err(TlsError::BadCertificates),
    }
}

/// Takes the one key out of a list of keys.
pub fn single_key(keys: Vec<Vec<u8>>) -> (r: Result<Vec<u8>, TlsError>)
    ensures
        match r {
            Ok(key) => single_key_of(keys.deep_view()) == Ok::<Seq<u8>, TlsError>(key@),
            Err(e) => single_key_of(keys.deep_view()) == Err::<Seq<u8>, TlsError>(e),
        },
{
    let mut keys = keys;
    let found = keys.len();
    if found == 1 {
        let ghost before = keys.deep_view();
        match keys.pop() {
            Some(key) => {
                assert(before[0] == key@);
                Ok(key)
            },
            None => Err(TlsError::NotOneKey { found }),
        }
    } else {
        Err(TlsError::NotOneKey { found })
    }
}

/// Reads the private key from the text of a PEM file.
pub fn load_private_key(pem: &[u8]) -> (r: Result<Vec<u8>, TlsError>)
    ensures
        match r {
            Ok(key) => private_key_of(pem@) == Ok::<Seq<u8>, TlsError>(key@),
            Err(e) => private_key_of(pem@) == Err::<Seq<u8>, TlsError>(e),
        },
{
    match read_pkcs8_keys(pem) {
        Some(keys) => single_key(keys),
        None => Err(TlsError::BadKeys),
    }
}

/// Reads the certificate chain from the text of a PEM file.
pub fn load_certs(pem: &[u8]) -> (r: Result<Vec<Vec<u8>>, TlsError>)
    ensures
        match r {
            Ok(certificates) => certificates_of(pem@) == Ok::<Seq<Seq<u8>>, TlsError>(
                certificates.deep_view(),
            ),
            Err(e) => certificates_of(pem@) == Err::<Seq<Seq<u8>>, TlsError>(e),
        },
{
    match read_certificates(pem) {
        Some(certificates) => Ok(certificates),
        None => Err(TlsError::BadCertificates),
    }
}

/// The sentence that reports a [`TlsError`].
pub open spec fn tls_error_text(error: TlsError) -> Seq<char> {
    match error {
        TlsError::BadCertificates => "failed to load certificate"@,
        TlsError::BadKeys => "failed to load private key"@,
        TlsError::NotOneKey { found } => "expected a single private key, got "@ + decimal_text(
            found as nat,
        ) + " instead"@,
    }
}

/// The sentence that reports a [`TlsError`].
pub fn tls_error_message(error: TlsError) -> (r: String)
    ensures
        r@ == tls_error_text(error),
{
    match error {
        TlsError::BadCertificates => String::from_str("failed to load certificate"),
        TlsError::BadKeys => String::from_str("failed to load private key"),
        TlsError::NotOneKey { found } => {
            let mut out = String::from_str("expected a single private key, got ");
            push_decimal(&mut out, found as u64);
            out.append(" instead");
            assert(out@ =~= tls_error_text(error));
            out
        },
    }
}

} // verus!
