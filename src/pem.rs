//! Certificates and keys read out of PEM text, for the TLS links.
use vstd::prelude::*;

verus! {

/// What `rustls_pemfile::certs` finds in `pem`: the DER bytes of each
/// `CERTIFICATE` section in order, or none when a section is malformed.
pub uninterp spec fn pem_certificates(pem: Seq<u8>) -> Option<Seq<Seq<u8>>>;

/// What `rustls_pemfile::pkcs8_private_keys` finds in `pem`: the DER bytes of
/// each `PRIVATE KEY` section in order, or none when a section is malformed.
pub uninterp spec fn pem_pkcs8_keys(pem: Seq<u8>) -> Option<Seq<Seq<u8>>>;

pub open spec fn opt_der(o: Option<Vec<Vec<u8>>>) -> Option<Seq<Seq<u8>>> {
    match o {
        Some(v) => Some(v.deep_view()),
        None => None,
    }
}

/// Relies on `rustls_pemfile::certs`, reading from the bytes themselves;
/// its error becomes `None`.
#[verifier::external_body]
fn parse_certificates(pem: &Vec<u8>) -> (r: Option<Vec<Vec<u8>>>)
    ensures
        opt_der(r) == pem_certificates(pem@),
{
    let mut reader: &[u8] = pem.as_slice();
    rustls_pemfile::certs(&mut reader).ok()
}

/// Relies on `rustls_pemfile::pkcs8_private_keys`, reading from the bytes
/// themselves; its error becomes `None`.
#[verifier::external_body]
fn parse_pkcs8_keys(pem: &Vec<u8>) -> (r: Option<Vec<Vec<u8>>>)
    ensures
        opt_der(r) == pem_pkcs8_keys(pem@),
{
    let mut reader: &[u8] = pem.as_slice();
    rustls_pemfile::pkcs8_private_keys(&mut reader).ok()
}

/// Why TLS material could not be used.
#[derive(Debug, Clone, Copy, PartialEq, Eq)]
pub enum PemError {
    /// The certificate file is not well-formed PEM.
    InvalidCert,
    /// The key file is not well-formed PEM.
    InvalidKey,
    /// The key file holds no PKCS 8 private key.
    MissingKey,
}

/// The certificate chain from what the PEM reader found.
pub fn chain_from(parsed: Option<Vec<Vec<u8>>>) -> (r: Result<Vec<Vec<u8>>, PemError>)
    ensures
        match opt_der(parsed) {
            Some(c) => r is Ok && r->Ok_0.deep_view() == c,
            None => r == Err::<Vec<Vec<u8>>, PemError>(PemError::InvalidCert),
        },
{
    match parsed {
        Some(c) => Ok(c),
        None => Err(PemError::InvalidCert),
    }
}

/// The first private key from what the PEM reader found.
pub fn key_from(parsed: Option<Vec<Vec<u8>>>) -> (r: Result<Vec<u8>, PemError>)
    ensures
        match opt_der(parsed) {
            Some(keys) => if keys.len() == 0 {
                r == Err::<Vec<u8>, PemError>(PemError::MissingKey)
            } else {
                r is Ok && r->Ok_0@ == keys[0]
            },
            None => r == Err::<Vec<u8>, PemError>(PemError::InvalidKey),
        },
{
    match parsed {
        Some(mut keys) => {
            if keys.len() == 0 {
                Err(PemError::MissingKey)
            } else {
                let ghost all = keys.deep_view();
                let first = keys.swap_remove(0);
                assert(first@ =~= all[0]);
                Ok(first)
            }
        },
        None => Err(PemError::InvalidKey),
    }
}

/// The certificates of a PEM file, in order.
pub fn certificate_chain(pem: &Vec<u8>) -> (r: Result<Vec<Vec<u8>>, PemError>)
    ensures
        match pem_certificates(pem@) {
            Some(c) => r is Ok && r->Ok_0.deep_view() == c,
            None => r == Err::<Vec<Vec<u8>>, PemError>(PemError::InvalidCert),
        },
{
    chain_from(parse_certificates(pem))
}

/// The first PKCS 8 private key of a PEM file.
pub fn first_private_key(pem: &Vec<u8>) -> (r: Result<Vec<u8>, PemError>)
    ensures
        match pem_pkcs8_keys(pem@) {
            Some(keys) => if keys.len() == 0 {
                r == Err::<Vec<u8>, PemError>(PemError::MissingKey)
            } else {
                r is Ok && r->Ok_0@ == keys[0]
            },
            None => r == Err::<Vec<u8>, PemError>(PemError::InvalidKey),
        },
{
    key_from(parse_pkcs8_keys(pem))
}

} // verus!
