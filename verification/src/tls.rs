//! Metadata of a server's TLS certificate.
use vstd::prelude::*;

use x509_parser::prelude::{FromDer, X509Certificate};

verus! {

/// Extracted metadata from a server's TLS certificate.
#[derive(Debug, Clone, PartialEq, Eq)]
pub struct TlsCertInfo {
    pub subject: String,
    pub issuer: String,
    pub not_before: String,
    pub not_after: String,
}

/// What x509-parser reads from DER bytes: the subject and issuer names and
/// the validity bounds as text, or `None` when the bytes are not an X.509
/// certificate.
pub uninterp spec fn x509_fields(der: Seq<u8>) -> Option<(Seq<char>, Seq<char>, Seq<char>, Seq<char>)>;

/// Reads a DER certificate with `X509Certificate::from_der` and renders the
/// subject, the issuer (`X509Name` as text) and the validity bounds
/// (`ASN1Time::to_datetime`, as text).
///
/// The contract claims only that the result is `x509_fields` of the bytes.
#[verifier::external_body]
fn read_x509(der: &[u8]) -> (r: Option<(String, String, String, String)>)
    ensures
        match r {
            Some(t) => x509_fields(der@) == Some((t.0@, t.1@, t.2@, t.3@)),
            None => x509_fields(der@) is None,
        },
{
    match X509Certificate::from_der(der) {
        Ok((_, cert)) => Some((
            cert.subject().to_string(),
            cert.issuer().to_string(),
            cert.validity().not_before.to_datetime().to_string(),
            cert.validity().not_after.to_datetime().to_string(),
        )),
        Err(_) => None,
    }
}

/// `info` holds the four fields read from a certificate.
pub open spec fn holds_fields(
    info: TlsCertInfo,
    f: (Seq<char>, Seq<char>, Seq<char>, Seq<char>),
) -> bool {
    info.subject@ == f.0 && info.issuer@ == f.1 && info.not_before@ == f.2 && info.not_after@
        == f.3
}

/// Parse a raw X.509 DER certificate into human-readable metadata; `None`
/// when the bytes are not a certificate.
pub fn parse_cert(der: &[u8]) -> (r: Option<TlsCertInfo>)
    ensures
        match x509_fields(der@) {
            Some(f) => r matches Some(info) && holds_fields(info, f),
            None => r is None,
        },
{
    match read_x509(der) {
        Some((subject, issuer, not_before, not_after)) => Some(
            TlsCertInfo { subject, issuer, not_before, not_after },
        ),
        None => None,
    }
}

} // verus!
