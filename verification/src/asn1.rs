//! ECDSA signatures as ASN.1: a SEQUENCE of the two unsigned INTEGERs `r`
//! and `s`, in DER.

use vstd::prelude::*;
use vstd::slice::slice_subrange;
use crate::bytes::read_vec;

verus! {

/// Number of bytes that the writer is given: two for the sequence's tag and
/// length, and for each of the two integers a tag, a length, a sign byte and
/// 32 bytes.
pub const ASN1_SIGNATURE_CAPACITY: usize = 72;

/// `value` without its leading zero bytes, but for the last byte.
pub open spec fn strip_leading_zeros(value: Seq<u8>) -> Seq<u8>
    decreases value.len(),
{
    if value.len() > 1 && value[0] == 0 {
        strip_leading_zeros(value.drop_first())
    } else {
        value
    }
}

/// The content of the INTEGER that holds the unsigned big-endian `value`:
/// the value without leading zeros, behind a zero byte where it would
/// otherwise read as negative.
pub open spec fn der_uint_content(value: Seq<u8>) -> Seq<u8> {
    let digits = strip_leading_zeros(value);
    if digits.len() > 0 && digits[0] >= 0x80 {
        seq![0u8] + digits
    } else {
        digits
    }
}

/// The DER encoding of the unsigned big-endian `value` as an INTEGER, for a
/// value of fewer than 127 bytes.
pub open spec fn der_uint(value: Seq<u8>) -> Seq<u8> {
    seq![0x02u8, der_uint_content(value).len() as u8] + der_uint_content(value)
}

/// The DER encoding of a SEQUENCE of the two unsigned INTEGERs `r` and `s`,
/// for values whose encodings take fewer than 128 bytes together.
pub open spec fn der_uint_pair(r: Seq<u8>, s: Seq<u8>) -> Seq<u8> {
    seq![0x30u8, (der_uint(r) + der_uint(s)).len() as u8] + (der_uint(r) + der_uint(s))
}

/// What `as_asn1` gives for `data`.
pub open spec fn as_asn1_spec(data: Seq<u8>) -> Seq<u8> {
    if data.len() != 64 {
        Seq::empty()
    } else {
        der_uint_pair(data.subrange(0, 32), data.subrange(32, 64))
    }
}

/// `der`'s `SequenceOf<UIntRef, 2>` written through a `SliceWriter` over
/// `capacity` bytes: the DER encoding of the sequence of the two 32-byte
/// unsigned integers `r` and `s`. `UIntRef::new` drops leading zero bytes
/// but for the last, and the encoder puts a zero byte before a value whose
/// first byte is `0x80` or more; tags and lengths take one byte each. With
/// 72 bytes to write to, nothing fails.
#[verifier::external_body]
fn der_encode_uint_pair(r: &[u8], s: &[u8], capacity: usize) -> (encoded: Option<Vec<u8>>)
    requires
        r@.len() == 32,
        s@.len() == 32,
        capacity >= 72,
    ensures
        encoded is Some,
        encoded matches Some(v) ==> v@ == der_uint_pair(r@, s@),
{
    let mut sequence = der::asn1::SequenceOf::<der::asn1::UIntRef, 2>::new();
    sequence.add(der::asn1::UIntRef::new(r).ok()?).ok()?;
    sequence.add(der::asn1::UIntRef::new(s).ok()?).ok()?;
    let mut buffer = vec![0u8; capacity];
    let mut writer = der::SliceWriter::new(&mut buffer);
    writer.encode(&sequence).ok()?;
    Some(writer.finish().ok()?.to_vec())
}

/// Encodes two 32-byte values, one behind the other in `data`, as an ASN.1
/// sequence of two unsigned integers: the form in which a certificate's key
/// verifies a P-256 signature. It takes 8 to 72 bytes. For `data` of any
/// other length than 64 the result is empty.
pub fn as_asn1(data: &[u8]) -> (r: Vec<u8>)
    ensures
        r@ == as_asn1_spec(data@),
        data@.len() == 64 ==> 8 <= r@.len() <= 72,
{
    if data.len() != 64 {
        return Vec::new();
    }
    proof {
        lemma_der_uint_pair_len(data@.subrange(0, 32), data@.subrange(32, 64));
    }
    let first = slice_subrange(data, 0, 32);
    let second = slice_subrange(data, 32, 64);
    match der_encode_uint_pair(first, second, ASN1_SIGNATURE_CAPACITY) {
        Some(encoded) => encoded,
        None => Vec::new(),
    }
}

/// The unsigned integer that `bytes` holds as a DER INTEGER at `at`, without
/// the zero byte that keeps it from reading as negative, and the offset
/// behind it. `None` where no INTEGER with a one-byte length stands there,
/// where it is negative, or where it has a leading zero byte that it does
/// not need.
pub open spec fn parse_uint(bytes: Seq<u8>, at: int) -> Option<(Seq<u8>, int)> {
    if at < 0 || at + 2 > bytes.len() || bytes[at] != 0x02 || bytes[at + 1] >= 0x80 || bytes[at
        + 1] == 0 || at + 2 + bytes[at + 1] > bytes.len() {
        None
    } else {
        let end = at + 2 + bytes[at + 1];
        let content = bytes.subrange(at + 2, end);
        if content[0] >= 0x80 {
            None
        } else if content[0] == 0 && content.len() > 1 {
            if content[1] >= 0x80 {
                Some((content.drop_first(), end))
            } else {
                None
            }
        } else {
            Some((content, end))
        }
    }
}

/// The two unsigned integers that `bytes` holds as a DER SEQUENCE with a
/// one-byte length. `None` where `bytes` is anything else.
pub open spec fn parse_uint_pair(bytes: Seq<u8>) -> Option<(Seq<u8>, Seq<u8>)> {
    if bytes.len() < 2 || bytes[0] != 0x30 || bytes[1] >= 0x80 || 2 + bytes[1] != bytes.len() {
        None
    } else {
        match parse_uint(bytes, 2) {
            Some((r, next)) => match parse_uint(bytes, next) {
                Some((s, end)) => if end == bytes.len() {
                    Some((r, s))
                } else {
                    None
                },
                None => None,
            },
            None => None,
        }
    }
}

/// Reads the unsigned integer at `at`.
fn read_uint(bytes: &[u8], at: usize) -> (r: Option<(Vec<u8>, usize)>)
    requires
        at <= bytes.len(),
    ensures
        r is Some <==> parse_uint(bytes@, at as int) is Some,
        r matches Some((value, next)) ==> parse_uint(bytes@, at as int) == Some(
            (value@, next as int),
        ) && next <= bytes.len(),
{
    if bytes.len() - at < 2 || bytes[at] != 0x02 {
        return None;
    }
    let len: usize = bytes[at + 1] as usize;
    if len >= 0x80 || len == 0 || bytes.len() - at - 2 < len {
        return None;
    }
    let end: usize = at + 2 + len;
    let ghost content = bytes@.subrange(at + 2, end as int);
    let first: u8 = bytes[at + 2];
    assert(first == content[0]);
    if first >= 0x80 {
        None
    } else if first == 0 && len > 1 {
        assert(bytes@[at + 3] == content[1]);
        if bytes[at + 3] >= 0x80 {
            let value = read_vec(bytes, at + 3, len - 1);
            assert(value@ =~= content.drop_first());
            Some((value, end))
        } else {
            None
        }
    } else {
        Some((read_vec(bytes, at + 2, len), end))
    }
}

/// Reads a signature back from its ASN.1 form: the two unsigned integers of
/// a DER sequence, each without leading zero bytes.
pub fn parse_asn1_sequence_of_two_uints(bytes: &[u8]) -> (r: Option<(Vec<u8>, Vec<u8>)>)
    ensures
        r is Some <==> parse_uint_pair(bytes@) is Some,
        r matches Some((a, b)) ==> parse_uint_pair(bytes@) == Some((a@, b@)),
{
    if bytes.len() < 2 || bytes[0] != 0x30 || bytes[1] >= 0x80 || bytes.len() - 2
        != bytes[1] as usize {
        return None;
    }
    match read_uint(bytes, 2) {
        Some((a, next)) => match read_uint(bytes, next) {
            Some((b, end)) => if end == bytes.len() {
                Some((a, b))
            } else {
                None
            },
            None => None,
        },
        None => None,
    }
}

/// What is left when leading zeros are dropped is no longer than the value,
/// is not empty unless the value is, and starts with a zero byte only where
/// it is that byte alone.
pub proof fn lemma_strip_leading_zeros(value: Seq<u8>)
    ensures
        strip_leading_zeros(value).len() <= value.len(),
        value.len() > 0 ==> strip_leading_zeros(value).len() > 0,
        strip_leading_zeros(value).len() > 1 ==> strip_leading_zeros(value)[0] != 0,
    decreases value.len(),
{
    if value.len() > 1 && value[0] == 0 {
        lemma_strip_leading_zeros(value.drop_first());
    }
}

/// An encoded integer that stands at `at` is read back as the value without
/// its leading zeros.
pub proof fn lemma_parse_uint_of_encoding(bytes: Seq<u8>, at: int, value: Seq<u8>)
    requires
        0 < value.len() <= 125,
        0 <= at,
        at + der_uint(value).len() <= bytes.len(),
        bytes.subrange(at, at + der_uint(value).len()) == der_uint(value),
    ensures
        parse_uint(bytes, at) == Some(
            (strip_leading_zeros(value), at + der_uint(value).len()),
        ),
{
    lemma_strip_leading_zeros(value);
    let digits = strip_leading_zeros(value);
    let content = der_uint_content(value);
    let encoded = der_uint(value);
    let n = content.len() as int;
    assert(encoded.len() == 2 + n);
    assert forall|i: int| 0 <= i < 2 + n implies bytes[at + i] == #[trigger] encoded[i] by {
        assert(bytes.subrange(at, at + 2 + n)[i] == bytes[at + i]);
    }
    assert(bytes[at] == encoded[0]);
    assert(bytes[at + 1] == encoded[1]);
    assert(bytes.subrange(at + 2, at + 2 + n) =~= content) by {
        assert forall|i: int| 0 <= i < n implies bytes.subrange(at + 2, at + 2 + n)[i]
            == content[i] by {
            assert(content[i] == encoded[2 + i]);
        }
    }
    if digits[0] >= 0x80 {
        assert(content.drop_first() =~= digits);
    }
}

/// Reading back the encoding of two 32-byte values gives the two values
/// without their leading zero bytes.
pub proof fn lemma_parse_uint_pair_of_encoding(r: Seq<u8>, s: Seq<u8>)
    requires
        r.len() == 32,
        s.len() == 32,
    ensures
        parse_uint_pair(der_uint_pair(r, s)) == Some(
            (strip_leading_zeros(r), strip_leading_zeros(s)),
        ),
{
    lemma_strip_leading_zeros(r);
    lemma_strip_leading_zeros(s);
    let first = der_uint(r);
    let second = der_uint(s);
    let all = der_uint_pair(r, s);
    let n = first.len() as int;
    let m = second.len() as int;
    assert(all.len() == 2 + n + m);
    assert(all.subrange(2, 2 + n) =~= first);
    assert(all.subrange(2 + n, 2 + n + m) =~= second);
    lemma_parse_uint_of_encoding(all, 2, r);
    lemma_parse_uint_of_encoding(all, 2 + n, s);
}

/// `value` behind as many zero bytes as make it `len` bytes long.
pub open spec fn left_padded(value: Seq<u8>, len: int) -> Seq<u8> {
    Seq::new((len - value.len()) as nat, |i: int| 0u8) + value
}

/// Putting zero bytes back before a value whose leading zeros were dropped
/// gives the value.
pub proof fn lemma_padding_restores(value: Seq<u8>)
    ensures
        left_padded(strip_leading_zeros(value), value.len() as int) == value,
    decreases value.len(),
{
    let n = value.len() as int;
    if value.len() > 1 && value[0] == 0 {
        let rest = value.drop_first();
        let digits = strip_leading_zeros(rest);
        lemma_padding_restores(rest);
        lemma_strip_leading_zeros(rest);
        assert(left_padded(digits, n) =~= seq![0u8] + left_padded(digits, n - 1));
        assert(seq![0u8] + rest =~= value);
    } else {
        assert(left_padded(value, n) =~= value);
    }
}

/// The encoding of two 32-byte values takes 8 to 72 bytes.
pub proof fn lemma_der_uint_pair_len(r: Seq<u8>, s: Seq<u8>)
    requires
        r.len() == 32,
        s.len() == 32,
    ensures
        8 <= der_uint_pair(r, s).len() <= 72,
{
    lemma_strip_leading_zeros(r);
    lemma_strip_leading_zeros(s);
}

/// A signature of 64 bytes, `r` then `s`, takes 8 to 72 bytes in its ASN.1
/// form, and is read back from it as `r` and `s`, each without its leading
/// zero bytes: with zero bytes put before each to make 32 bytes again, as
/// `r` and `s` themselves.
pub proof fn lemma_as_asn1_round_trip(data: Seq<u8>)
    requires
        data.len() == 64,
    ensures
        8 <= as_asn1_spec(data).len() <= 72,
        parse_uint_pair(as_asn1_spec(data)) == Some(
            (
                strip_leading_zeros(data.subrange(0, 32)),
                strip_leading_zeros(data.subrange(32, 64)),
            ),
        ),
        parse_uint_pair(as_asn1_spec(data)) matches Some((r, s)) && left_padded(r, 32)
            + left_padded(s, 32) == data,
{
    let first = data.subrange(0, 32);
    let second = data.subrange(32, 64);
    lemma_der_uint_pair_len(first, second);
    lemma_parse_uint_pair_of_encoding(first, second);
    lemma_padding_restores(first);
    lemma_padding_restores(second);
    assert(first + second =~= data);
}

} // verus!
