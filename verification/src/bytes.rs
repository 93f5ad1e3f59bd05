//! Byte-string predicates and integer readings used to recognise file formats.
use vstd::prelude::*;

verus! {

/// `p` is a prefix of `s`.
pub open spec fn starts_with(s: Seq<u8>, p: Seq<u8>) -> bool {
    p.len() <= s.len() && s.take(p.len() as int) == p
}

/// `needle` occurs in `haystack` starting at index `i`.
pub open spec fn occurs_at(haystack: Seq<u8>, needle: Seq<u8>, i: int) -> bool {
    0 <= i && i + needle.len() <= haystack.len() && haystack.subrange(i, i + needle.len()) == needle
}

/// `needle` occurs somewhere in `haystack`.
pub open spec fn contains(haystack: Seq<u8>, needle: Seq<u8>) -> bool {
    exists|i: int| occurs_at(haystack, needle, i)
}

/// Every byte is ASCII.
pub open spec fn all_ascii(s: Seq<u8>) -> bool {
    forall|i: int| 0 <= i < s.len() ==> s[i] < 0x80
}

/// The little-endian `u16` at index `i`.
pub open spec fn u16_le(s: Seq<u8>, i: int) -> u16 {
    (s[i] as u16 + s[i + 1] as u16 * 0x100) as u16
}

/// The little-endian `u32` at index `i`.
pub open spec fn u32_le(s: Seq<u8>, i: int) -> u32 {
    (s[i] as u32 + s[i + 1] as u32 * 0x100 + s[i + 2] as u32 * 0x1_0000 + s[i + 3] as u32
        * 0x100_0000) as u32
}

/// The big-endian `u32` at index `i`.
pub open spec fn u32_be(s: Seq<u8>, i: int) -> u32 {
    (s[i] as u32 * 0x100_0000 + s[i + 1] as u32 * 0x1_0000 + s[i + 2] as u32 * 0x100 + s[i
        + 3] as u32) as u32
}

/// The bytes of `v`, least significant first.
pub open spec fn le_bytes(v: u32) -> Seq<u8> {
    seq![v as u8, (v >> 8u32) as u8, (v >> 16u32) as u8, (v >> 24u32) as u8]
}

/// The bytes of `v`, most significant first.
pub open spec fn be_bytes(v: u32) -> Seq<u8> {
    seq![(v >> 24u32) as u8, (v >> 16u32) as u8, (v >> 8u32) as u8, v as u8]
}

/// Whether `pattern` occurs in `data` at index `start`.
pub fn matches_at(data: &[u8], start: usize, pattern: &[u8]) -> (r: bool)
    ensures
        r == occurs_at(data@, pattern@, start as int),
{
    if start > data.len() || pattern.len() > data.len() - start {
        return false;
    }
    let mut i: usize = 0;
    while i < pattern.len()
        invariant
            start + pattern.len() <= data.len(),
            0 <= i <= pattern.len(),
            forall|j: int| 0 <= j < i ==> data@[start + j] == pattern@[j],
        decreases pattern.len() - i,
    {
        if data[start + i] != pattern[i] {
            assert(data@.subrange(start as int, start + pattern.len())[i as int] != pattern@[i as int]);
            return false;
        }
        i = i + 1;
    }
    assert(data@.subrange(start as int, start + pattern.len()) =~= pattern@);
    true
}

/// Whether `data` begins with `prefix`.
pub fn has_prefix(data: &[u8], prefix: &[u8]) -> (r: bool)
    ensures
        r == starts_with(data@, prefix@),
{
    let r = matches_at(data, 0, prefix);
    assert(data@.subrange(0, prefix@.len() as int) =~= data@.take(prefix@.len() as int));
    r
}

/// Whether `data`, from index `start` on, is exactly `pattern`.
pub fn rest_is(data: &[u8], start: usize, pattern: &[u8]) -> (r: bool)
    requires
        start <= data.len(),
    ensures
        r == (data@.skip(start as int) == pattern@),
{
    if data.len() - start != pattern.len() {
        assert(data@.skip(start as int).len() != pattern@.len());
        return false;
    }
    let r = matches_at(data, start, pattern);
    assert(data@.subrange(start as int, start + pattern.len()) =~= data@.skip(start as int));
    r
}

/// Whether every byte of `data` is ASCII.
pub fn is_ascii(data: &[u8]) -> (r: bool)
    ensures
        r == all_ascii(data@),
{
    let mut i: usize = 0;
    while i < data.len()
        invariant
            0 <= i <= data.len(),
            forall|j: int| 0 <= j < i ==> data@[j] < 0x80,
        decreases data.len() - i,
    {
        if data[i] >= 0x80 {
            return false;
        }
        i = i + 1;
    }
    true
}

/// The bytes of `v`, most significant first.
pub fn to_be_bytes(v: u32) -> (r: [u8; 4])
    ensures
        r@ == be_bytes(v),
{
    let r = [(v >> 24u32) as u8, (v >> 16u32) as u8, (v >> 8u32) as u8, v as u8];
    assert(r@ =~= be_bytes(v));
    r
}

} // verus!
