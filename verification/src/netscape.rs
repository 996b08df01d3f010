//! The Netscape comment of an attestation certificate: the attestation
//! report, the signature over it and the certificate of the signer.

use vstd::prelude::*;
use crate::bytes::read_vec;
use crate::error::ValidationError;
use crate::pem::{base64_decode, base64_decode_spec};
use crate::search::{byte_strings, find, first_match, pieces, split_on};

verus! {

/// The object identifier 2.16.840.1.113730.1.13 in DER, with tag and length.
pub const NS_CMT_OID: [u8; 11] = [0x06, 0x09, 0x60, 0x86, 0x48, 0x01, 0x86, 0xF8, 0x42, 0x01, 0x0D];

/// The tag of an OCTET STRING.
pub const OCTET_STRING_TAG: u8 = 0x04;

/// `|`, which stands between the fields of the comment.
pub const FIELD_SEPARATOR: [u8; 1] = [0x7C];

/// An attestation certificate in DER, of which nothing has been checked yet.
pub struct CertDer<'a>(pub &'a [u8]);

/// The fields of a Netscape comment, signature and certificate decoded.
pub struct NetscapeComment {
    /// The attestation report as it was signed.
    pub attestation_raw: Vec<u8>,
    /// The signature over the report.
    pub sig: Vec<u8>,
    /// The certificate of the signer, in DER.
    pub sig_cert: Vec<u8>,
}

/// A Netscape comment as a mathematical value.
pub ghost struct NetscapeCommentView {
    pub attestation_raw: Seq<u8>,
    pub sig: Seq<u8>,
    pub sig_cert: Seq<u8>,
}

impl View for NetscapeComment {
    type V = NetscapeCommentView;

    open spec fn view(&self) -> NetscapeCommentView {
        NetscapeCommentView {
            attestation_raw: self.attestation_raw@,
            sig: self.sig@,
            sig_cert: self.sig_cert@,
        }
    }
}

/// The length that stands at `at` in DER, and the offset behind it: one
/// byte below `0x80`, or `0x81` and one byte, or `0x82` and two bytes, most
/// significant first. `None` for any other form, or where `bytes` ends
/// before the length does.
pub open spec fn der_length(bytes: Seq<u8>, at: int) -> Option<(int, int)> {
    if at < 0 || at >= bytes.len() {
        None
    } else if bytes[at] < 0x80 {
        Some((bytes[at] as int, at + 1))
    } else if bytes[at] == 0x81 && at + 1 < bytes.len() {
        Some((bytes[at + 1] as int, at + 2))
    } else if bytes[at] == 0x82 && at + 2 < bytes.len() {
        Some((bytes[at + 1] as int * 256 + bytes[at + 2] as int, at + 3))
    } else {
        None
    }
}

/// The content of the octet string behind the first occurrence of the
/// comment's object identifier in `cert`.
pub open spec fn netscape_payload(cert: Seq<u8>) -> Result<Seq<u8>, ValidationError> {
    match first_match(cert, NS_CMT_OID@, 0) {
        None => Err(ValidationError::MissingNetscapeComment),
        Some(at) => if at + 11 >= cert.len() {
            Err(ValidationError::NetscapeBounds)
        } else if cert[at + 11] != 0x04 {
            Err(ValidationError::NetscapePayload)
        } else {
            match der_length(cert, at + 12) {
                None => Err(ValidationError::NetscapeBounds),
                Some((len, start)) => if start + len > cert.len() {
                    Err(ValidationError::NetscapeBounds)
                } else {
                    Ok(cert.subrange(start, start + len))
                },
            }
        },
    }
}

/// The Netscape comment of `cert`: its payload has to consist of three
/// fields, of which the second and the third are base64.
pub open spec fn netscape_comment(cert: Seq<u8>) -> Result<
    NetscapeCommentView,
    ValidationError,
> {
    match netscape_payload(cert) {
        Err(e) => Err(e),
        Ok(payload) => {
            let fields = pieces(payload, FIELD_SEPARATOR@, 0, 0);
            if fields.len() != 3 {
                Err(ValidationError::NetscapePayload)
            } else {
                match base64_decode_spec(fields[1]) {
                    None => Err(ValidationError::SignatureDecoding),
                    Some(sig) => match base64_decode_spec(fields[2]) {
                        None => Err(ValidationError::CertDecoding),
                        Some(sig_cert) => Ok(
                            NetscapeCommentView { attestation_raw: fields[0], sig, sig_cert },
                        ),
                    },
                }
            }
        },
    }
}

/// Reads the length that stands at `at`.
pub fn read_der_length(bytes: &[u8], at: usize) -> (r: Option<(usize, usize)>)
    ensures
        r is Some <==> der_length(bytes@, at as int) is Some,
        r matches Some((len, start)) ==> der_length(bytes@, at as int) == Some(
            (len as int, start as int),
        ) && start <= bytes.len(),
{
    if at >= bytes.len() {
        return None;
    }
    let first: u8 = bytes[at];
    if first < 0x80 {
        Some((first as usize, at + 1))
    } else if first == 0x81 && bytes.len() - at > 1 {
        Some((bytes[at + 1] as usize, at + 2))
    } else if first == 0x82 && bytes.len() - at > 2 {
        let len: usize = bytes[at + 1] as usize * 256 + bytes[at + 2] as usize;
        Some((len, at + 3))
    } else {
        None
    }
}

/// Finds the payload of the Netscape comment: where it starts in `cert` and
/// how long it is.
pub fn find_netscape_payload(cert: &[u8]) -> (r: Result<(usize, usize), ValidationError>)
    ensures
        r matches Ok((start, len)) ==> start + len <= cert.len() && netscape_payload(cert@) == Ok::<
            Seq<u8>,
            ValidationError,
        >(cert@.subrange(start as int, start + len)),
        r matches Err(e) ==> netscape_payload(cert@) == Err::<Seq<u8>, ValidationError>(e),
{
    let at: usize = match find(cert, NS_CMT_OID.as_slice()) {
        Some(at) => at,
        None => {
            return Err(ValidationError::MissingNetscapeComment);
        },
    };
    if cert.len() - at <= 11 {
        return Err(ValidationError::NetscapeBounds);
    }
    if cert[at + 11] != OCTET_STRING_TAG {
        return Err(ValidationError::NetscapePayload);
    }
    match read_der_length(cert, at + 12) {
        None => Err(ValidationError::NetscapeBounds),
        Some((len, start)) => if cert.len() - start < len {
            Err(ValidationError::NetscapeBounds)
        } else {
            Ok((start, len))
        },
    }
}

impl NetscapeComment {
    /// Takes the Netscape comment out of an attestation certificate.
    ///
    /// The certificate is searched for the comment's object identifier; the
    /// octet string behind it is cut at each `|` into report, signature and
    /// certificate, and the latter two are decoded from base64.
    pub fn try_from(value: CertDer) -> (r: Result<NetscapeComment, ValidationError>)
        ensures
            r matches Ok(comment) ==> netscape_comment(value.0@) == Ok::<
                NetscapeCommentView,
                ValidationError,
            >(comment@),
            r matches Err(e) ==> netscape_comment(value.0@) == Err::<
                NetscapeCommentView,
                ValidationError,
            >(e),
    {
        let cert_der = value.0;
        let (start, len) = match find_netscape_payload(cert_der) {
            Ok(found) => found,
            Err(e) => {
                return Err(e);
            },
        };
        let payload = read_vec(cert_der, start, len);
        let mut fields = split_on(payload.as_slice(), FIELD_SEPARATOR.as_slice());
        if fields.len() != 3 {
            return Err(ValidationError::NetscapePayload);
        }
        let ghost parts = byte_strings(fields@);
        assert(parts[0] == fields@[0]@ && parts[1] == fields@[1]@ && parts[2] == fields@[2]@);
        let sig = match base64_decode(fields[1].as_slice()) {
            Some(sig) => sig,
            None => {
                return Err(ValidationError::SignatureDecoding);
            },
        };
        let sig_cert = match base64_decode(fields[2].as_slice()) {
            Some(sig_cert) => sig_cert,
            None => {
                return Err(ValidationError::CertDecoding);
            },
        };
        let attestation_raw = fields.swap_remove(0);
        Ok(NetscapeComment { attestation_raw, sig, sig_cert })
    }
}

} // verus!
