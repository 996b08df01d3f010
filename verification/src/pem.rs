//! Taking the certificates out of a concatenation of PEM blocks.

use vstd::prelude::*;
use crate::search::{byte_strings, pieces, remove_all, split_on, without};

verus! {

/// `-----BEGIN CERTIFICATE-----`
pub const PEM_BEGIN: [u8; 27] = [
    45, 45, 45, 45, 45, 66, 69, 71, 73, 78, 32, 67, 69, 82, 84, 73, 70, 73, 67, 65, 84, 69, 45, 45,
    45, 45, 45,
];

/// `-----END CERTIFICATE-----`
pub const PEM_END: [u8; 25] = [
    45, 45, 45, 45, 45, 69, 78, 68, 32, 67, 69, 82, 84, 73, 70, 73, 67, 65, 84, 69, 45, 45, 45, 45,
    45,
];

/// The line feed.
pub const LINE_FEED: [u8; 1] = [10];

/// What the `base64` crate decodes `input` to in its standard
/// configuration; `None` where it rejects `input`.
pub uninterp spec fn base64_decoded(input: Seq<u8>) -> Option<Seq<u8>>;

/// `base64::decode`: the bytes that `input` stands for in the standard
/// alphabet, or nothing where `input` is not base64. The result depends on
/// `input` alone. The crate adds up to 7 to the length of its input and
/// stops the program where that overflows; such input is left out.
#[verifier::external_body]
fn base64_decode_bounded(input: &[u8]) -> (r: Option<Vec<u8>>)
    requires
        input@.len() + 7 <= usize::MAX,
    ensures
        r is Some <==> base64_decoded(input@) is Some,
        r matches Some(v) ==> base64_decoded(input@) == Some(v@),
{
    base64::decode(input).ok()
}

/// What `base64_decode` gives for `input`.
pub open spec fn base64_decode_spec(input: Seq<u8>) -> Option<Seq<u8>> {
    if input.len() + 7 > usize::MAX {
        None
    } else {
        base64_decoded(input)
    }
}

/// Decodes base64 in the standard alphabet. Input within 7 bytes of the
/// largest length that the machine can address is rejected like input that
/// is not base64.
pub fn base64_decode(input: &[u8]) -> (r: Option<Vec<u8>>)
    ensures
        r is Some <==> base64_decode_spec(input@) is Some,
        r matches Some(v) ==> base64_decode_spec(input@) == Some(v@),
{
    if input.len() > usize::MAX - 7 {
        None
    } else {
        base64_decode_bounded(input)
    }
}

/// The certificate that a piece of the text stands for: the piece decoded
/// from base64, and none where the piece is empty or is not base64.
pub open spec fn decoded_part(part: Seq<u8>) -> Option<Seq<u8>> {
    if part.len() > 0 {
        base64_decode_spec(part)
    } else {
        None
    }
}

/// The certificates in a concatenation of PEM blocks: line feeds are taken
/// out, then every begin marker; what is left is cut at the end markers, and
/// each piece that is not empty and is base64 is a certificate.
pub open spec fn extract_certs_spec(cert_chain: Seq<u8>) -> Seq<Seq<u8>> {
    pieces(
        without(without(cert_chain, LINE_FEED@, 0), PEM_BEGIN@, 0),
        PEM_END@,
        0,
        0,
    ).filter_map(|part: Seq<u8>| decoded_part(part))
}

/// Decodes each part that is not empty and is base64, and drops the others.
pub fn decode_parts(parts: &Vec<Vec<u8>>) -> (r: Vec<Vec<u8>>)
    ensures
        byte_strings(r@) == byte_strings(parts@).filter_map(|part: Seq<u8>| decoded_part(part)),
{
    let ghost decode = |part: Seq<u8>| decoded_part(part);
    let ghost all = byte_strings(parts@);
    let mut out: Vec<Vec<u8>> = Vec::new();
    let mut i: usize = 0;
    assert(all.take(0).filter_map(decode) =~= Seq::<Seq<u8>>::empty());
    assert(byte_strings(out@) =~= Seq::<Seq<u8>>::empty());
    while i < parts.len()
        invariant
            i <= parts.len(),
            all == byte_strings(parts@),
            decode == (|part: Seq<u8>| decoded_part(part)),
            byte_strings(out@) == all.take(i as int).filter_map(decode),
        decreases parts.len() - i,
    {
        let ghost before = out@;
        proof {
            all.lemma_filter_map_take_succ(decode, i as int);
        }
        assert(all[i as int] == parts@[i as int]@);
        if parts[i].len() > 0 {
            match base64_decode(parts[i].as_slice()) {
                Some(cert) => {
                    out.push(cert);
                    assert(byte_strings(out@) =~= byte_strings(before) + seq![out@.last()@]);
                },
                None => {},
            }
        }
        i += 1;
    }
    assert(all.take(parts@.len() as int) =~= all);
    out
}

/// Extracts the certificates from a concatenation of PEM blocks, in their
/// order. The text should be UTF-8 but need not be: a piece that is not
/// base64 is dropped, whatever it holds.
pub fn extract_certs(cert_chain: &[u8]) -> (r: Vec<Vec<u8>>)
    ensures
        byte_strings(r@) == extract_certs_spec(cert_chain@),
{
    let joined = remove_all(cert_chain, LINE_FEED.as_slice());
    let bare = remove_all(joined.as_slice(), PEM_BEGIN.as_slice());
    let parts = split_on(bare.as_slice(), PEM_END.as_slice());
    decode_parts(&parts)
}

} // verus!
