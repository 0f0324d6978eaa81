//! One-shot hashing: on the calling thread, or as a task that owns a copy of
//! its input and can be run later on any thread.
use vstd::prelude::*;
use crate::primitive::{blake3_digest, blake3_hash, hex_digest, hex_string};

verus! {

/// The lowercase hexadecimal BLAKE3 digest of `input`.
pub open spec fn hex_hash(input: Seq<u8>) -> Seq<char> {
    hex_string(blake3_digest(input))
}

/// Hashes `data` at once and returns its digest as 64 lowercase hexadecimal
/// characters.
pub fn hash_sync(data: &[u8]) -> (r: String)
    ensures
        r@ == hex_hash(data@),
        r@.len() == 64,
{
    let digest = blake3_hash(data);
    hex_digest(&digest)
}

/// A unit of deferred hashing work. It owns its own copy of the input, so it
/// does not depend on the caller's buffer once created.
pub struct AsyncHashTask {
    data: Vec<u8>,
}

impl View for AsyncHashTask {
    type V = Seq<u8>;

    /// The bytes the task will hash.
    closed spec fn view(&self) -> Seq<u8> {
        self.data@
    }
}

impl AsyncHashTask {
    /// Runs the task: the hexadecimal digest of the owned input. The input is
    /// left as it was.
    pub fn compute(&self) -> (r: String)
        ensures
            r@ == hex_hash(self@),
            r@.len() == 64,
    {
        hash_sync(self.data.as_slice())
    }

    /// Hands the computed digest back to the caller unchanged.
    pub fn resolve(&self, output: String) -> (r: String)
        ensures
            r == output,
    {
        output
    }
}

/// Creates the task that hashes `data`, copying the bytes into storage the
/// task owns. Only the copy is done on the calling thread.
pub fn hash_async(data: &[u8]) -> (r: AsyncHashTask)
    ensures
        r@ == data@,
{
    AsyncHashTask { data: vstd::slice::slice_to_vec(data) }
}

} // verus!
