//! Incremental hashing: bytes are fed in any number of pieces and the digest
//! can be read at any point without disturbing the state.
use vstd::prelude::*;
use crate::oneshot::hex_hash;
use crate::primitive::{
    absorbed,
    blake3_digest,
    hasher_finalize,
    hasher_reset,
    hasher_update,
    hex_digest,
};

verus! {

/// A streaming BLAKE3 hasher. Its state is exactly the bytes fed to it since
/// it was created or last reset.
pub struct Blake3Hasher {
    hasher: blake3::Hasher,
}

impl View for Blake3Hasher {
    type V = Seq<u8>;

    /// The bytes absorbed since creation or the last reset.
    closed spec fn view(&self) -> Seq<u8> {
        absorbed(self.hasher)
    }
}

impl Blake3Hasher {
    /// A hasher that has absorbed nothing.
    pub fn new() -> (r: Self)
        ensures
            r@ == Seq::<u8>::empty(),
    {
        Blake3Hasher { hasher: blake3::Hasher::new() }
    }

    /// Feeds `data` after everything fed so far. Empty data changes nothing.
    pub fn update(&mut self, data: &[u8])
        ensures
            final(self)@ == old(self)@ + data@,
    {
        hasher_update(&mut self.hasher, data);
    }

    /// The hexadecimal digest of everything fed so far, as `hash_sync` would
    /// give it for those bytes. The state is not touched.
    pub fn digest(&self) -> (r: String)
        ensures
            r@ == hex_hash(self@),
            r@.len() == 64,
    {
        let bytes = hasher_finalize(&self.hasher);
        hex_digest(&bytes)
    }

    /// The same digest as `digest`, as its 32 raw bytes.
    pub fn digest_binary(&self) -> (r: [u8; 32])
        ensures
            r@ == blake3_digest(self@),
    {
        hasher_finalize(&self.hasher)
    }

    /// Discards everything fed so far; the hasher is then as if new.
    pub fn reset(&mut self)
        ensures
            final(self)@ == Seq::<u8>::empty(),
    {
        hasher_reset(&mut self.hasher);
    }
}

} // verus!
