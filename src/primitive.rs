//! The BLAKE3 primitive as this library uses it, and the lowercase
//! hexadecimal form of a digest.
use vstd::prelude::*;

verus! {

/// Length in bytes of a BLAKE3 digest.
pub const DIGEST_LEN: usize = 32;

/// The 32-byte BLAKE3 digest of `input`. The compression function and the
/// tree construction are blake3's; only the name is used here.
pub uninterp spec fn blake3_digest(input: Seq<u8>) -> Seq<u8>;

/// The bytes fed to a `blake3::Hasher` since it was built or last reset.
pub uninterp spec fn absorbed(h: blake3::Hasher) -> Seq<u8>;

/// The lowercase hexadecimal digit for a value below sixteen.
pub open spec fn hex_digit(d: int) -> char {
    seq!['0', '1', '2', '3', '4', '5', '6', '7', '8', '9', 'a', 'b', 'c', 'd', 'e', 'f'][d]
}

/// Lowercase hexadecimal text of `bytes`: two digits per byte, high nibble
/// first.
pub open spec fn hex_string(bytes: Seq<u8>) -> Seq<char> {
    Seq::new(
        2 * bytes.len(),
        |i: int|
            if i % 2 == 0 {
                hex_digit(bytes[i / 2] as int / 16)
            } else {
                hex_digit(bytes[i / 2] as int % 16)
            },
    )
}

/// The incremental hash state of blake3.
#[verifier::external_type_specification]
#[verifier::external_body]
pub struct ExHasher(blake3::Hasher);

/// Relies on blake3::Hasher::new: a fresh hasher has absorbed nothing.
pub assume_specification[ blake3::Hasher::new ]() -> (r: blake3::Hasher)
    ensures
        absorbed(r) == Seq::<u8>::empty(),
;

/// Relies on blake3::hash: the digest of the whole input at once.
#[verifier::external_body]
pub(crate) fn blake3_hash(input: &[u8]) -> (r: [u8; 32])
    ensures
        r@ == blake3_digest(input@),
{
    *blake3::hash(input).as_bytes()
}

/// Relies on blake3::Hasher::update: the input is appended to what the
/// hasher has absorbed. Its input-offset assertion concerns only hashers
/// given an offset through blake3's hazmat API, which this library never does.
#[verifier::external_body]
pub(crate) fn hasher_update(h: &mut blake3::Hasher, input: &[u8])
    ensures
        absorbed(*final(h)) == absorbed(*old(h)) + input@,
{
    h.update(input);
}

/// Relies on blake3::Hasher::reset: the hasher returns to its initial state.
#[verifier::external_body]
pub(crate) fn hasher_reset(h: &mut blake3::Hasher)
    ensures
        absorbed(*final(h)) == Seq::<u8>::empty(),
{
    h.reset();
}

/// Relies on blake3::Hasher::finalize: without changing the hasher, it gives
/// the digest that blake3::hash gives for everything absorbed so far (blake3
/// documents `finalize` after updates "foo", "bar", "baz" as equal to
/// `hash(b"foobarbaz")`). Its assertion on the input offset cannot fire for a
/// hasher made by `Hasher::new`.
#[verifier::external_body]
pub(crate) fn hasher_finalize(h: &blake3::Hasher) -> (r: [u8; 32])
    ensures
        r@ == blake3_digest(absorbed(*h)),
{
    *h.finalize().as_bytes()
}

/// Relies on blake3::Hash::from_bytes, which wraps the bytes as they are, and
/// blake3::Hash::to_hex: lowercase hexadecimal, high nibble first.
#[verifier::external_body]
fn hash_to_hex(bytes: &[u8; 32]) -> (r: String)
    ensures
        r@ == hex_string(bytes@),
{
    blake3::Hash::from_bytes(*bytes).to_hex().to_string()
}

/// The 64-character lowercase hexadecimal form of a digest.
pub fn hex_digest(bytes: &[u8; 32]) -> (r: String)
    ensures
        r@ == hex_string(bytes@),
        r@.len() == 2 * DIGEST_LEN,
{
    let r = hash_to_hex(bytes);
    proof {
        vstd::array::array_len_matches_n(bytes);
    }
    r
}

} // verus!
