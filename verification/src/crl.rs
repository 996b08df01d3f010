//! Certificate revocation lists, as far as counting what they revoke.

use vstd::prelude::*;
use der::Decode;
use crate::error::ValidationError;
use crate::hexadecimal::{hex_bytes, hex_decode, is_hex};

verus! {

/// How many certificates the revocation list `der` revokes, as `x509-cert`
/// reads it: `None` where `der` is no revocation list, `Some(None)` where the
/// list names no revoked certificates at all.
pub uninterp spec fn crl_revoked_count(der: Seq<u8>) -> Option<Option<usize>>;

/// `der::Decode::from_der` for `x509_cert::crl::CertificateList`, and the
/// length of the list's `revoked_certificates`. The result depends on `der`
/// alone.
#[verifier::external_body]
fn decode_crl_revoked_count(der: &[u8]) -> (r: Option<Option<usize>>)
    ensures
        r == crl_revoked_count(der@),
{
    match x509_cert::crl::CertificateList::from_der(der) {
        Ok(crl) => Some(crl.tbs_cert_list.revoked_certificates.map(|revoked| revoked.len())),
        Err(_) => None,
    }
}

/// What `parse_crl` comes to for `crl_data`.
pub open spec fn parse_crl_spec(crl_data: Seq<u8>) -> Option<usize> {
    if !is_hex(crl_data) {
        None
    } else {
        match crl_revoked_count(hex_bytes(crl_data)) {
            Some(Some(count)) => Some(count),
            _ => None,
        }
    }
}

/// Counts the certificates that a revocation list revokes. The list comes
/// in hexadecimal. It fails, with `Deserialization`, where the text is not
/// hexadecimal, where the bytes are no revocation list, and where the list
/// has no field of revoked certificates.
pub fn parse_crl(crl_data: &[u8]) -> (r: Result<usize, ValidationError>)
    ensures
        r is Ok <==> parse_crl_spec(crl_data@) is Some,
        r matches Ok(count) ==> parse_crl_spec(crl_data@) == Some(count),
        r matches Err(e) ==> e == ValidationError::Deserialization,
{
    let crl_decoded = match hex_decode(crl_data) {
        Some(bytes) => bytes,
        None => {
            return Err(ValidationError::Deserialization);
        },
    };
    match decode_crl_revoked_count(crl_decoded.as_slice()) {
        Some(Some(count)) => Ok(count),
        _ => Err(ValidationError::Deserialization),
    }
}

} // verus!
