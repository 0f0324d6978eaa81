//! Properties that tie the three hashing modes together, proved over the
//! models that their contracts use.
use vstd::prelude::*;
use crate::oneshot::{hex_hash, AsyncHashTask};
use crate::primitive::{blake3_digest, hex_string};
use crate::streaming::Blake3Hasher;

verus! {

/// One operation on a streaming hasher that changes its state.
pub enum HasherStep {
    Update(Seq<u8>),
    Reset,
}

/// The state of a streaming hasher after one step, as `update` and `reset`
/// state it.
pub open spec fn after_step(state: Seq<u8>, step: HasherStep) -> Seq<u8> {
    match step {
        HasherStep::Update(data) => state + data,
        HasherStep::Reset => Seq::<u8>::empty(),
    }
}

/// The state of a streaming hasher that starts from `start` and then takes
/// `steps` in order.
pub open spec fn after_steps(start: Seq<u8>, steps: Seq<HasherStep>) -> Seq<u8>
    decreases steps.len(),
{
    if steps.len() == 0 {
        start
    } else {
        after_steps(after_step(start, steps[0]), steps.drop_first())
    }
}

/// The steps that feed `chunks` in order.
pub open spec fn updates(chunks: Seq<Seq<u8>>) -> Seq<HasherStep> {
    chunks.map_values(|c: Seq<u8>| HasherStep::Update(c))
}

/// Feeding chunks one by one leaves the starting bytes followed by the
/// concatenation of the chunks.
pub proof fn lemma_updates_concatenate(start: Seq<u8>, chunks: Seq<Seq<u8>>)
    ensures
        after_steps(start, updates(chunks)) == start + chunks.flatten(),
    decreases chunks.len(),
{
    if chunks.len() > 0 {
        assert(updates(chunks)[0] == HasherStep::Update(chunks[0]));
        assert(updates(chunks).drop_first() =~= updates(chunks.drop_first()));
        lemma_updates_concatenate(start + chunks[0], chunks.drop_first());
        assert(start + chunks[0] + chunks.drop_first().flatten() =~= start + (chunks[0]
            + chunks.drop_first().flatten()));
    } else {
        assert(start + chunks.flatten() =~= start);
    }
}

/// A task made by `hash_async` from some bytes computes the digest that
/// `hash_sync` returns for the same bytes.
pub proof fn lemma_async_matches_sync(data: Seq<u8>, task: AsyncHashTask)
    requires
        task@ == data,
    ensures
        hex_hash(task@) == hex_hash(data),
{
}

/// However the input is cut into chunks, a new streaming hasher fed those
/// chunks in order has absorbed the whole input, so its digest is the
/// one-shot digest of the input.
pub proof fn lemma_chunk_independence(chunks: Seq<Seq<u8>>)
    ensures
        after_steps(Seq::<u8>::empty(), updates(chunks)) == chunks.flatten(),
        hex_hash(after_steps(Seq::<u8>::empty(), updates(chunks))) == hex_hash(chunks.flatten()),
{
    lemma_updates_concatenate(Seq::<u8>::empty(), chunks);
    assert(Seq::<u8>::empty() + chunks.flatten() =~= chunks.flatten());
}

/// Two hashers in the same state give the same digest; in particular reading
/// the digest twice with no update in between gives the same text.
pub proof fn lemma_digest_repeatable(a: Blake3Hasher, b: Blake3Hasher)
    requires
        a@ == b@,
    ensures
        hex_hash(a@) == hex_hash(b@),
        blake3_digest(a@) == blake3_digest(b@),
{
}

/// After `update(x)`, `reset()` and `update(y)`, whatever came before, the
/// hasher holds exactly `y`, and its digest is the one-shot digest of `y`.
pub proof fn lemma_reset_forgets(before: Seq<u8>, x: Seq<u8>, y: Seq<u8>)
    ensures
        after_steps(before, seq![HasherStep::Update(x), HasherStep::Reset, HasherStep::Update(y)])
            == y,
        hex_hash(
            after_steps(before, seq![HasherStep::Update(x), HasherStep::Reset, HasherStep::Update(y)]),
        ) == hex_hash(y),
{
    let steps = seq![HasherStep::Update(x), HasherStep::Reset, HasherStep::Update(y)];
    assert(steps.drop_first() =~= seq![HasherStep::Reset, HasherStep::Update(y)]);
    assert(steps.drop_first().drop_first() =~= seq![HasherStep::Update(y)]);
    assert(steps.drop_first().drop_first().drop_first() =~= Seq::<HasherStep>::empty());
    assert(Seq::<u8>::empty() + y =~= y);
    reveal_with_fuel(after_steps, 4);
}

/// The raw digest, written in lowercase hexadecimal, is the text digest.
pub proof fn lemma_binary_matches_hex(state: Seq<u8>)
    ensures
        hex_string(blake3_digest(state)) == hex_hash(state),
        hex_string(blake3_digest(state)).len() == 2 * blake3_digest(state).len(),
{
}

} // verus!
