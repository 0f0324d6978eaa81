//! BLAKE3 hashing in three modes: one-shot on the calling thread, one-shot as
//! a task that owns a copy of its input, and incremental through a streaming
//! hasher. Every mode yields the same digest for the same bytes.
pub mod primitive;
pub mod oneshot;
pub mod streaming;
pub mod laws;

pub use oneshot::{hash_async, hash_sync, AsyncHashTask};
pub use streaming::Blake3Hasher;
