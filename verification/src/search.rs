//! Looking for a byte string in another: where it stands first, what is
//! left when it is taken out, and the pieces that it cuts the other into.

use vstd::prelude::*;
use crate::bytes::read_vec;

verus! {

/// Whether `needle` stands in `hay` at offset `at`.
pub open spec fn matches_at(hay: Seq<u8>, needle: Seq<u8>, at: int) -> bool {
    0 <= at && at + needle.len() <= hay.len() && hay.subrange(at, at + needle.len()) == needle
}

/// What is left of `hay` from `at` on when every occurrence of `needle` is
/// taken out, the occurrences being looked for from left to right and none
/// overlapping another.
pub open spec fn without(hay: Seq<u8>, needle: Seq<u8>, at: int) -> Seq<u8>
    decreases hay.len() - at,
{
    if at < 0 || at >= hay.len() {
        Seq::empty()
    } else if needle.len() > 0 && matches_at(hay, needle, at) {
        without(hay, needle, at + needle.len())
    } else {
        seq![hay[at]] + without(hay, needle, at + 1)
    }
}

/// The pieces into which the occurrences of `needle` cut `hay`, the
/// occurrences being looked for from left to right and none overlapping
/// another. The piece at hand starts at `start`; `hay` has been searched up
/// to `at`.
pub open spec fn pieces(hay: Seq<u8>, needle: Seq<u8>, start: int, at: int) -> Seq<Seq<u8>>
    decreases hay.len() - at,
{
    if needle.len() == 0 || at < 0 || at + needle.len() > hay.len() {
        seq![hay.subrange(start, hay.len() as int)]
    } else if matches_at(hay, needle, at) {
        seq![hay.subrange(start, at)] + pieces(
            hay,
            needle,
            at + needle.len(),
            at + needle.len(),
        )
    } else {
        pieces(hay, needle, start, at + 1)
    }
}

/// The byte strings that a sequence of vectors holds.
pub open spec fn byte_strings(v: Seq<Vec<u8>>) -> Seq<Seq<u8>> {
    v.map_values(|x: Vec<u8>| x@)
}

/// Whether `needle` stands in `hay` at offset `at`.
pub fn is_match_at(hay: &[u8], needle: &[u8], at: usize) -> (r: bool)
    ensures
        r == matches_at(hay@, needle@, at as int),
{
    if at > hay.len() || hay.len() - at < needle.len() {
        return false;
    }
    let mut i: usize = 0;
    while i < needle.len()
        invariant
            i <= needle.len(),
            at + needle.len() <= hay.len(),
            forall|j: int| 0 <= j < i ==> hay@[at + j] == needle@[j],
        decreases needle.len() - i,
    {
        if hay[at + i] != needle[i] {
            assert(hay@.subrange(at as int, at + needle.len())[i as int] != needle@[i as int]);
            return false;
        }
        i += 1;
    }
    assert(hay@.subrange(at as int, at + needle.len()) =~= needle@);
    true
}

/// Takes every occurrence of `needle` out of `hay`.
pub fn remove_all(hay: &[u8], needle: &[u8]) -> (r: Vec<u8>)
    ensures
        r@ == without(hay@, needle@, 0),
{
    let mut out: Vec<u8> = Vec::new();
    let mut at: usize = 0;
    while at < hay.len()
        invariant
            at <= hay.len(),
            out@ + without(hay@, needle@, at as int) == without(hay@, needle@, 0),
        decreases hay.len() - at,
    {
        if needle.len() > 0 && is_match_at(hay, needle, at) {
            at += needle.len();
        } else {
            let ghost before = out@;
            out.push(hay[at]);
            assert(before + (seq![hay@[at as int]] + without(hay@, needle@, at + 1)) =~= out@
                + without(hay@, needle@, at + 1));
            at += 1;
        }
    }
    assert(out@ + Seq::<u8>::empty() =~= out@);
    out
}

/// Cuts `hay` at every occurrence of `needle`.
pub fn split_on(hay: &[u8], needle: &[u8]) -> (r: Vec<Vec<u8>>)
    ensures
        byte_strings(r@) == pieces(hay@, needle@, 0, 0),
{
    let mut parts: Vec<Vec<u8>> = Vec::new();
    let mut start: usize = 0;
    let mut at: usize = 0;
    assert(byte_strings(parts@) =~= Seq::<Seq<u8>>::empty());
    assert(Seq::<Seq<u8>>::empty() + pieces(hay@, needle@, 0, 0) =~= pieces(hay@, needle@, 0, 0));
    while needle.len() > 0 && hay.len() - at >= needle.len()
        invariant
            start <= at <= hay.len(),
            byte_strings(parts@) + pieces(hay@, needle@, start as int, at as int) == pieces(
                hay@,
                needle@,
                0,
                0,
            ),
        decreases hay.len() - at,
    {
        if is_match_at(hay, needle, at) {
            let ghost before = parts@;
            let ghost piece = hay@.subrange(start as int, at as int);
            parts.push(read_vec(hay, start, at - start));
            at += needle.len();
            start = at;
            assert(byte_strings(parts@) =~= byte_strings(before).push(piece));
            assert(byte_strings(before) + (seq![piece] + pieces(
                hay@,
                needle@,
                at as int,
                at as int,
            )) =~= byte_strings(parts@) + pieces(hay@, needle@, at as int, at as int));
        } else {
            at += 1;
        }
    }
    let ghost before = parts@;
    parts.push(read_vec(hay, start, hay.len() - start));
    assert(byte_strings(parts@) =~= byte_strings(before) + seq![
        hay@.subrange(start as int, hay@.len() as int),
    ]);
    parts
}

/// The first offset from `at` on at which `needle` stands in `hay`; `None`
/// where it stands at none.
pub open spec fn first_match(hay: Seq<u8>, needle: Seq<u8>, at: int) -> Option<int>
    decreases hay.len() - at + 1,
{
    if at < 0 || at + needle.len() > hay.len() {
        None
    } else if matches_at(hay, needle, at) {
        Some(at)
    } else {
        first_match(hay, needle, at + 1)
    }
}

/// Finds the first offset at which `needle` stands in `hay`.
pub fn find(hay: &[u8], needle: &[u8]) -> (r: Option<usize>)
    ensures
        r is Some <==> first_match(hay@, needle@, 0) is Some,
        r matches Some(at) ==> first_match(hay@, needle@, 0) == Some(at as int) && at
            + needle.len() <= hay.len(),
{
    let mut at: usize = 0;
    while hay.len() - at >= needle.len()
        invariant
            at <= hay.len(),
            first_match(hay@, needle@, at as int) == first_match(hay@, needle@, 0),
        decreases hay.len() - at,
    {
        if is_match_at(hay, needle, at) {
            return Some(at);
        }
        if at == hay.len() {
            assert(first_match(hay@, needle@, at + 1) is None);
            return None;
        }
        at += 1;
    }
    None
}

} // verus!
