//! Bytes written as hexadecimal digits.

use vstd::prelude::*;
use crate::bytes::read_array;

verus! {

/// Why a text does not stand for an array of bytes.
#[derive(Clone, Copy, Debug, PartialEq, Eq, Structural)]
pub enum HexError {
    /// The text has an odd length or holds a byte that is no digit.
    NotHex,
    /// The text stands for more or fewer bytes than the array has.
    Length,
}

/// The value of the hexadecimal digit `c`, in either case; `None` where
/// `c` is no digit.
pub open spec fn hex_digit(c: u8) -> Option<int> {
    if 0x30 <= c <= 0x39 {
        Some(c - 0x30)
    } else if 0x41 <= c <= 0x46 {
        Some(c - 0x41 + 10)
    } else if 0x61 <= c <= 0x66 {
        Some(c - 0x61 + 10)
    } else {
        None
    }
}

/// Whether `text` is hexadecimal: an even number of digits.
pub open spec fn is_hex(text: Seq<u8>) -> bool {
    text.len() % 2 == 0 && forall|i: int| 0 <= i < text.len() ==> (#[trigger] hex_digit(text[i]))
        is Some
}

/// The bytes that the hexadecimal `text` stands for, two digits to a byte,
/// the more significant digit first.
pub open spec fn hex_bytes(text: Seq<u8>) -> Seq<u8> {
    Seq::new(
        text.len() / 2,
        |i: int| (16 * hex_digit(text[2 * i]).unwrap() + hex_digit(text[2 * i + 1]).unwrap()) as u8,
    )
}

/// `hex::decode`: the bytes that `text` stands for, or nothing where `text`
/// has an odd length or holds a byte that is no hexadecimal digit.
#[verifier::external_body]
pub(crate) fn hex_decode(text: &[u8]) -> (r: Option<Vec<u8>>)
    ensures
        r is Some <==> is_hex(text@),
        r matches Some(bytes) ==> bytes@ == hex_bytes(text@),
{
    hex::decode(text).ok()
}

/// Decodes hexadecimal text, in either case, that has to stand for exactly
/// `N` bytes. It
/// fails with `NotHex` exactly where the text is not hexadecimal, and with
/// `Length` exactly where it is but stands for another number of bytes.
pub fn decode_hex_array<const N: usize>(text: &[u8]) -> (r: Result<[u8; N], HexError>)
    ensures
        r is Ok <==> is_hex(text@) && text@.len() == 2 * N,
        r matches Ok(bytes) ==> bytes@ == hex_bytes(text@),
        r matches Err(e) ==> e == (if is_hex(text@) {
            HexError::Length
        } else {
            HexError::NotHex
        }),
{
    match hex_decode(text) {
        None => Err(HexError::NotHex),
        Some(bytes) => if bytes.len() == N {
            let array = read_array::<N>(bytes.as_slice(), 0);
            assert(array@ =~= bytes@);
            Ok(array)
        } else {
            Err(HexError::Length)
        },
    }
}

} // verus!
