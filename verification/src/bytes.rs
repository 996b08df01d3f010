//! Reading integers and byte strings out of a buffer.

use vstd::prelude::*;

verus! {

/// The integer that two bytes hold, least significant byte first.
pub open spec fn le_u16(s: Seq<u8>) -> u16
    recommends
        s.len() == 2,
{
    (s[0] as int + 256 * (s[1] as int)) as u16
}

/// The integer that four bytes hold, least significant byte first.
pub open spec fn le_u32(s: Seq<u8>) -> u32
    recommends
        s.len() == 4,
{
    (s[0] as int + 0x100 * (s[1] as int) + 0x1_0000 * (s[2] as int) + 0x100_0000 * (s[3]
        as int)) as u32
}

/// The integer that eight bytes hold, least significant byte first.
pub open spec fn le_u64(s: Seq<u8>) -> u64
    recommends
        s.len() == 8,
{
    (le_u32(s.subrange(0, 4)) as int + 0x1_0000_0000 * (le_u32(s.subrange(4, 8)) as int)) as u64
}

/// The two bytes that hold `v`, least significant byte first.
pub open spec fn u16_le_bytes(v: u16) -> Seq<u8> {
    seq![(v % 256) as u8, (v / 256) as u8]
}

/// The four bytes that hold `v`, least significant byte first.
pub open spec fn u32_le_bytes(v: u32) -> Seq<u8> {
    seq![
        (v % 0x100) as u8,
        (v / 0x100 % 0x100) as u8,
        (v / 0x1_0000 % 0x100) as u8,
        (v / 0x100_0000) as u8,
    ]
}

/// The eight bytes that hold `v`, least significant byte first.
pub open spec fn u64_le_bytes(v: u64) -> Seq<u8> {
    u32_le_bytes((v % 0x1_0000_0000) as u32) + u32_le_bytes((v / 0x1_0000_0000) as u32)
}

/// The digits of a number below 2^16 in base 256.
proof fn lemma_digits_u16(b0: int, b1: int)
    requires
        0 <= b0 < 256,
        0 <= b1 < 256,
    ensures
        0 <= b0 + 256 * b1 < 0x1_0000,
        (b0 + 256 * b1) % 256 == b0,
        (b0 + 256 * b1) / 256 == b1,
{
}

/// The digits of a number below 2^32 in base 256.
proof fn lemma_digits_u32(b0: int, b1: int, b2: int, b3: int)
    requires
        0 <= b0 < 256,
        0 <= b1 < 256,
        0 <= b2 < 256,
        0 <= b3 < 256,
    ensures
        0 <= b0 + 0x100 * b1 + 0x1_0000 * b2 + 0x100_0000 * b3 < 0x1_0000_0000,
        (b0 + 0x100 * b1 + 0x1_0000 * b2 + 0x100_0000 * b3) % 0x100 == b0,
        (b0 + 0x100 * b1 + 0x1_0000 * b2 + 0x100_0000 * b3) / 0x100 % 0x100 == b1,
        (b0 + 0x100 * b1 + 0x1_0000 * b2 + 0x100_0000 * b3) / 0x1_0000 % 0x100 == b2,
        (b0 + 0x100 * b1 + 0x1_0000 * b2 + 0x100_0000 * b3) / 0x100_0000 == b3,
{
}

/// The two halves of a number below 2^64.
proof fn lemma_halves_u64(lo: int, hi: int)
    requires
        0 <= lo < 0x1_0000_0000,
        0 <= hi < 0x1_0000_0000,
    ensures
        0 <= lo + 0x1_0000_0000 * hi < 0x1_0000_0000_0000_0000,
        (lo + 0x1_0000_0000 * hi) % 0x1_0000_0000 == lo,
        (lo + 0x1_0000_0000 * hi) / 0x1_0000_0000 == hi,
{
}

/// Writing an integer out and reading it back gives the integer.
pub proof fn lemma_le_u16_of_bytes(v: u16)
    ensures
        u16_le_bytes(v).len() == 2,
        le_u16(u16_le_bytes(v)) == v,
{
    lemma_digits_u16(v as int % 256, v as int / 256);
}

/// Reading two bytes and writing the integer out gives the two bytes.
pub proof fn lemma_bytes_of_le_u16(s: Seq<u8>)
    requires
        s.len() == 2,
    ensures
        u16_le_bytes(le_u16(s)) == s,
{
    lemma_digits_u16(s[0] as int, s[1] as int);
    assert(u16_le_bytes(le_u16(s)) =~= s);
}

/// Writing an integer out and reading it back gives the integer.
pub proof fn lemma_le_u32_of_bytes(v: u32)
    ensures
        u32_le_bytes(v).len() == 4,
        le_u32(u32_le_bytes(v)) == v,
{
    let x = v as int;
    lemma_digits_u32(x % 0x100, x / 0x100 % 0x100, x / 0x1_0000 % 0x100, x / 0x100_0000);
}

/// Reading four bytes and writing the integer out gives the four bytes.
pub proof fn lemma_bytes_of_le_u32(s: Seq<u8>)
    requires
        s.len() == 4,
    ensures
        u32_le_bytes(le_u32(s)) == s,
{
    lemma_digits_u32(s[0] as int, s[1] as int, s[2] as int, s[3] as int);
    assert(u32_le_bytes(le_u32(s)) =~= s);
}

/// Writing an integer out and reading it back gives the integer.
pub proof fn lemma_le_u64_of_bytes(v: u64)
    ensures
        u64_le_bytes(v).len() == 8,
        le_u64(u64_le_bytes(v)) == v,
{
    let lo = (v % 0x1_0000_0000) as u32;
    let hi = (v / 0x1_0000_0000) as u32;
    lemma_le_u32_of_bytes(lo);
    lemma_le_u32_of_bytes(hi);
    assert(u64_le_bytes(v).subrange(0, 4) =~= u32_le_bytes(lo));
    assert(u64_le_bytes(v).subrange(4, 8) =~= u32_le_bytes(hi));
}

/// Reading eight bytes and writing the integer out gives the eight bytes.
pub proof fn lemma_bytes_of_le_u64(s: Seq<u8>)
    requires
        s.len() == 8,
    ensures
        u64_le_bytes(le_u64(s)) == s,
{
    let lo = s.subrange(0, 4);
    let hi = s.subrange(4, 8);
    let l = le_u32(lo);
    let h = le_u32(hi);
    lemma_halves_u64(l as int, h as int);
    assert(u32_le_bytes(l) == lo) by {
        lemma_bytes_of_le_u32(lo);
    }
    assert(u32_le_bytes(h) == hi) by {
        lemma_bytes_of_le_u32(hi);
    }
    assert(lo + hi =~= s);
}

/// Two adjacent stretches of a sequence make up the stretch that spans both.
pub proof fn lemma_subrange_join(s: Seq<u8>, a: int, b: int, c: int)
    requires
        0 <= a <= b <= c <= s.len(),
    ensures
        s.subrange(a, b) + s.subrange(b, c) == s.subrange(a, c),
{
    assert(s.subrange(a, b) + s.subrange(b, c) =~= s.subrange(a, c));
}

/// A stretch of a stretch of a sequence is a stretch of the sequence.
pub proof fn lemma_subrange_of_subrange(s: Seq<u8>, at: int, len: int)
    requires
        0 <= at,
        0 <= len,
        at + len <= s.len(),
    ensures
        forall|a: int, b: int|
            0 <= a <= b <= len ==> #[trigger] s.subrange(at, at + len).subrange(a, b)
                == s.subrange(at + a, at + b),
{
    let inner = s.subrange(at, at + len);
    assert forall|a: int, b: int| 0 <= a <= b <= len implies #[trigger] inner.subrange(a, b)
        == s.subrange(at + a, at + b) by {
        assert(inner.subrange(a, b) =~= s.subrange(at + a, at + b));
    }
}

/// Reads a `u16` at `at`, least significant byte first.
pub fn read_u16(input: &[u8], at: usize) -> (r: u16)
    requires
        at + 2 <= input.len(),
    ensures
        r == le_u16(input@.subrange(at as int, at + 2)),
{
    let b0: u16 = input[at] as u16;
    let b1: u16 = input[at + 1] as u16;
    b0 + 256 * b1
}

/// Reads a `u32` at `at`, least significant byte first.
pub fn read_u32(input: &[u8], at: usize) -> (r: u32)
    requires
        at + 4 <= input.len(),
    ensures
        r == le_u32(input@.subrange(at as int, at + 4)),
{
    let b0: u32 = input[at] as u32;
    let b1: u32 = input[at + 1] as u32;
    let b2: u32 = input[at + 2] as u32;
    let b3: u32 = input[at + 3] as u32;
    b0 + 0x100 * b1 + 0x1_0000 * b2 + 0x100_0000 * b3
}

/// Reads a `u64` at `at`, least significant byte first.
pub fn read_u64(input: &[u8], at: usize) -> (r: u64)
    requires
        at + 8 <= input.len(),
    ensures
        r == le_u64(input@.subrange(at as int, at + 8)),
{
    let lo: u64 = read_u32(input, at) as u64;
    let hi: u64 = read_u32(input, at + 4) as u64;
    proof {
        let s = input@.subrange(at as int, at + 8);
        assert(s.subrange(0, 4) =~= input@.subrange(at as int, at + 4));
        assert(s.subrange(4, 8) =~= input@.subrange(at + 4, at + 8));
    }
    lo + 0x1_0000_0000 * hi
}

/// Copies the `N` bytes at `at` into an array.
pub fn read_array<const N: usize>(input: &[u8], at: usize) -> (r: [u8; N])
    requires
        at + N <= input.len(),
    ensures
        r@ == input@.subrange(at as int, at + N),
{
    let mut out: [u8; N] = [0u8; N];
    let mut i: usize = 0;
    while i < N
        invariant
            i <= N,
            at + N <= input.len(),
            forall|j: int| 0 <= j < i ==> out@[j] == input@[at + j],
        decreases N - i,
    {
        out[i] = input[at + i];
        i += 1;
    }
    assert(out@ =~= input@.subrange(at as int, at + N));
    out
}

/// Copies the `len` bytes at `at` into a vector.
pub fn read_vec(input: &[u8], at: usize, len: usize) -> (r: Vec<u8>)
    requires
        at + len <= input.len(),
    ensures
        r@ == input@.subrange(at as int, at + len),
{
    let mut out: Vec<u8> = Vec::with_capacity(len);
    let mut i: usize = 0;
    while i < len
        invariant
            i <= len,
            at + len <= input.len(),
            out@ == input@.subrange(at as int, at + i),
        decreases len - i,
    {
        out.push(input[at + i]);
        assert(out@ =~= input@.subrange(at as int, at + i + 1));
        i += 1;
    }
    out
}

/// Whether two byte strings are the same.
pub fn bytes_equal(a: &[u8], b: &[u8]) -> (r: bool)
    ensures
        r == (a@ == b@),
{
    if a.len() != b.len() {
        return false;
    }
    let mut i: usize = 0;
    while i < a.len()
        invariant
            i <= a@.len(),
            a@.len() == b@.len(),
            forall|j: int| 0 <= j < i ==> a@[j] == b@[j],
        decreases a@.len() - i,
    {
        if a[i] != b[i] {
            return false;
        }
        i += 1;
    }
    assert(a@ =~= b@);
    true
}

/// Whether two strings are the same.
pub fn str_equal(a: &str, b: &str) -> (r: bool)
    ensures
        r == (a@ == b@),
{
    proof {
        vstd::utf8::encode_utf8_decode_utf8(a@);
        vstd::utf8::encode_utf8_decode_utf8(b@);
    }
    bytes_equal(a.as_bytes(), b.as_bytes())
}

} // verus!
