//! Verified little-endian byte encoding and byte/label comparison helpers.
use vstd::prelude::*;
use vstd::bytes::{spec_u32_to_le_bytes, spec_u64_to_le_bytes};
use vstd::string::StringSliceAdditionalSpecFns;

verus! {

/// Little-endian 8-byte encoding of a `usize` value, widened to `u64`.
pub open spec fn le64(x: usize) -> Seq<u8> {
    spec_u64_to_le_bytes(x as u64)
}

/// Little-endian 4-byte encoding of a `u32` value.
pub open spec fn le32(x: u32) -> Seq<u8> {
    spec_u32_to_le_bytes(x)
}

/// The 8-byte encodings are 8 bytes long and determine the encoded value.
pub proof fn lemma_le64_facts(x: usize, y: usize)
    ensures
        le64(x).len() == 8,
        le64(x) == le64(y) ==> x == y,
{
    vstd::bytes::lemma_auto_spec_u64_to_from_le_bytes();
    assert(vstd::bytes::spec_u64_to_le_bytes(x as u64).len() == 8);
    assert(vstd::bytes::spec_u64_from_le_bytes(vstd::bytes::spec_u64_to_le_bytes(x as u64)) == x as u64);
    assert(vstd::bytes::spec_u64_from_le_bytes(vstd::bytes::spec_u64_to_le_bytes(y as u64)) == y as u64);
}

/// The 4-byte encodings are 4 bytes long and determine the encoded value.
pub proof fn lemma_le32_facts(x: u32, y: u32)
    ensures
        le32(x).len() == 4,
        le32(x) == le32(y) ==> x == y,
{
    vstd::bytes::lemma_auto_spec_u32_to_from_le_bytes();
    assert(vstd::bytes::spec_u32_to_le_bytes(x).len() == 4);
    assert(vstd::bytes::spec_u32_to_le_bytes(y).len() == 4);
    assert(vstd::bytes::spec_u32_from_le_bytes(vstd::bytes::spec_u32_to_le_bytes(x)) == x);
    assert(vstd::bytes::spec_u32_from_le_bytes(vstd::bytes::spec_u32_to_le_bytes(y)) == y);
}

/// Four concatenated 8-byte encodings determine the four encoded values.
pub proof fn lemma_le64_concat4_split(
    a0: usize,
    a1: usize,
    a2: usize,
    a3: usize,
    b0: usize,
    b1: usize,
    b2: usize,
    b3: usize,
)
    requires
        le64(a0) + le64(a1) + le64(a2) + le64(a3) == le64(b0) + le64(b1) + le64(b2) + le64(b3),
    ensures
        a0 == b0,
        a1 == b1,
        a2 == b2,
        a3 == b3,
{
    lemma_le64_facts(a0, b0);
    lemma_le64_facts(a1, b1);
    lemma_le64_facts(a2, b2);
    lemma_le64_facts(a3, b3);
    lemma_le64_facts(b0, a0);
    lemma_le64_facts(b1, a1);
    lemma_le64_facts(b2, a2);
    lemma_le64_facts(b3, a3);
    let x = le64(a0) + le64(a1) + le64(a2) + le64(a3);
    let y = le64(b0) + le64(b1) + le64(b2) + le64(b3);
    assert(x.subrange(0, 8) =~= le64(a0));
    assert(y.subrange(0, 8) =~= le64(b0));
    assert(x.subrange(8, 16) =~= le64(a1));
    assert(y.subrange(8, 16) =~= le64(b1));
    assert(x.subrange(16, 24) =~= le64(a2));
    assert(y.subrange(16, 24) =~= le64(b2));
    assert(x.subrange(24, 32) =~= le64(a3));
    assert(y.subrange(24, 32) =~= le64(b3));
}

/// Appends every byte of `src` to `out`, in order.
pub fn append_bytes(out: &mut Vec<u8>, src: &[u8])
    ensures
        final(out)@ == old(out)@ + src@,
{
    let ghost start = out@;
    let mut i: usize = 0;
    while i < src.len()
        invariant
            0 <= i <= src@.len(),
            out@ == start + src@.subrange(0, i as int),
        decreases src@.len() - i,
    {
        out.push(src[i]);
        i = i + 1;
        assert(out@ =~= start + src@.subrange(0, i as int));
    }
    assert(src@.subrange(0, src@.len() as int) =~= src@);
}

/// Returns a fresh vector holding the bytes of `src`.
pub fn copy_bytes(src: &[u8]) -> (r: Vec<u8>)
    ensures
        r@ == src@,
{
    let mut r: Vec<u8> = Vec::new();
    append_bytes(&mut r, src);
    assert(r@ =~= src@);
    r
}

/// Appends the little-endian 8-byte encoding of `x` (widened to `u64`).
pub fn push_le64(out: &mut Vec<u8>, x: usize)
    ensures
        final(out)@ == old(out)@ + le64(x),
{
    let encoded = vstd::bytes::u64_to_le_bytes(x as u64);
    append_bytes(out, encoded.as_slice());
}

/// Appends the little-endian 4-byte encoding of `x`.
pub fn push_le32(out: &mut Vec<u8>, x: u32)
    ensures
        final(out)@ == old(out)@ + le32(x),
{
    let encoded = vstd::bytes::u32_to_le_bytes(x);
    append_bytes(out, encoded.as_slice());
}

/// Returns whether two byte slices hold the same bytes.
pub fn bytes_equal(a: &[u8], b: &[u8]) -> (r: bool)
    ensures
        r == (a@ == b@),
{
    if a.len() != b.len() {
        return false;
    }
    let mut i: usize = 0;
    while i < a.len()
        invariant
            a@.len() == b@.len(),
            0 <= i <= a@.len(),
            forall|k: int| 0 <= k < i ==> a@[k] == b@[k],
        decreases a@.len() - i,
    {
        if a[i] != b[i] {
            return false;
        }
        i = i + 1;
    }
    assert(a@ =~= b@);
    true
}

/// Returns whether two string slices hold the same characters.
pub fn str_equal(a: &str, b: &str) -> (r: bool)
    ensures
        r == (a@ == b@),
{
    broadcast use vstd::utf8::encode_utf8_decode_utf8;

    let r = bytes_equal(a.as_bytes(), b.as_bytes());
    proof {
        if r {
            assert(vstd::utf8::decode_utf8(a.spec_bytes()) == a@);
            assert(vstd::utf8::decode_utf8(b.spec_bytes()) == b@);
        }
    }
    r
}

} // verus!
