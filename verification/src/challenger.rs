//! The pinned byte-level Fiat-Shamir challenger
//! (`p3_challenger::HashChallenger<u8, p3_keccak::Keccak256Hash, 32>`),
//! held behind a small trusted interface.
//!
//! The challenger keeps an input buffer and an output buffer of bytes.
//! Observing a byte clears the output buffer and appends the byte to the
//! input buffer. Sampling with an empty output buffer first replaces both
//! buffers by the Keccak-256 digest of the input buffer; it then pops and
//! returns the last byte of the output buffer.
use vstd::prelude::*;

verus! {

/// Keccak-256 digest of a byte string, as computed by
/// `<p3_keccak::Keccak256Hash as CryptographicHasher<u8, [u8; 32]>>::hash_iter`.
pub uninterp spec fn keccak256_digest(input: Seq<u8>) -> Seq<u8>;

/// The pinned byte challenger: a `HashChallenger` over bytes with the
/// Keccak-256 hasher and a 32-byte output.
#[verifier::external_body]
pub struct ByteChallenger {
    inner: p3_challenger::HashChallenger<u8, p3_keccak::Keccak256Hash, 32>,
}

/// The challenger's input buffer.
pub uninterp spec fn challenger_input(c: ByteChallenger) -> Seq<u8>;

/// The challenger's output buffer; sampling pops from its end.
pub uninterp spec fn challenger_output(c: ByteChallenger) -> Seq<u8>;

/// Creates a fresh challenger: `HashChallenger::new(Vec::new(), Keccak256Hash)`.
/// Both buffers start empty.
#[verifier::external_body]
pub fn new_byte_challenger() -> (c: ByteChallenger)
    ensures
        challenger_input(c) == Seq::<u8>::empty(),
        challenger_output(c) == Seq::<u8>::empty(),
{
    ByteChallenger {
        inner: p3_challenger::HashChallenger::new(Vec::new(), p3_keccak::Keccak256Hash),
    }
}

/// Observes one byte: `<HashChallenger as CanObserve<u8>>::observe`. Clears
/// the output buffer and appends the byte to the input buffer.
#[verifier::external_body]
pub fn observe_byte(c: &mut ByteChallenger, value: u8)
    ensures
        challenger_input(*final(c)) == challenger_input(*old(c)).push(value),
        challenger_output(*final(c)) == Seq::<u8>::empty(),
{
    p3_challenger::CanObserve::observe(&mut c.inner, value);
}

/// Samples one byte: `<HashChallenger as CanSample<u8>>::sample`.
///
/// With an empty output buffer the challenger first hashes its input buffer
/// and sets both buffers to the 32-byte digest; the result is then the last
/// byte of the output buffer, which is removed.
#[verifier::external_body]
pub fn sample_byte(c: &mut ByteChallenger) -> (r: u8)
    ensures
        challenger_output(*old(c)).len() == 0 ==> {
            &&& challenger_input(*final(c)) == keccak256_digest(challenger_input(*old(c)))
            &&& challenger_input(*final(c)).len() == 32
            &&& r == challenger_input(*final(c)).last()
            &&& challenger_output(*final(c)) == challenger_input(*final(c)).drop_last()
        },
        challenger_output(*old(c)).len() > 0 ==> {
            &&& challenger_input(*final(c)) == challenger_input(*old(c))
            &&& r == challenger_output(*old(c)).last()
            &&& challenger_output(*final(c)) == challenger_output(*old(c)).drop_last()
        },
{
    p3_challenger::CanSample::sample(&mut c.inner)
}

} // verus!
