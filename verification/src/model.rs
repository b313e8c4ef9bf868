//! Mathematical model of the hashing algorithm: the initial hash chain, one
//! mixing round, the iterated buffer states, and the final digest. Every
//! executable function of the library is specified against these.

use crate::sha::sha256_of;
use vstd::bytes::{spec_u32_from_le_bytes, spec_u32_to_le_bytes};
use vstd::prelude::*;

verus! {

/// The byte sequences held by a buffer of blocks, in order.
pub open spec fn block_views(blocks: Seq<Vec<u8>>) -> Seq<Seq<u8>> {
    Seq::new(blocks.len(), |i: int| blocks[i]@)
}

/// The bytes hashed to derive a lookup index: the little-endian encoding of
/// the block position followed by the little-endian encoding of the round.
pub open spec fn index_seed(current: u32, step: u32) -> Seq<u8> {
    spec_u32_to_le_bytes(current) + spec_u32_to_le_bytes(step)
}

/// The pseudo-random lookup index for block `current` in round `step`: the
/// first four bytes of SHA-256 over `index_seed`, read little-endian,
/// reduced modulo the block count. Depends on its three arguments alone,
/// never on buffer contents.
pub open spec fn block_index(current: u32, step: u32, total_blocks: u32) -> int
    recommends
        total_blocks >= 1,
{
    (spec_u32_from_le_bytes(sha256_of(index_seed(current, step)).subrange(0, 4)) as int)
        % (total_blocks as int)
}

/// The initial buffer: a strict hash chain of `space` blocks, seeded with
/// `password ++ salt`; each further block hashes its immediate predecessor.
pub open spec fn expand_chain(space: nat, password: Seq<u8>, salt: Seq<u8>) -> Seq<Seq<u8>>
    decreases space,
{
    if space == 0 {
        Seq::empty()
    } else if space == 1 {
        seq![sha256_of(password + salt)]
    } else {
        let prev = expand_chain((space - 1) as nat, password, salt);
        prev.push(sha256_of(prev.last()))
    }
}

/// The new value of the block at `idx` in round `step`: SHA-256 over the
/// block's own pre-round bytes followed by three lookups of the same
/// index-derived snapshot block.
pub open spec fn mixed_block(snapshot: Seq<Seq<u8>>, idx: u32, step: u32) -> Seq<u8>
    recommends
        1 <= snapshot.len() <= u32::MAX,
        idx < snapshot.len(),
{
    let j = block_index(idx, step, snapshot.len() as u32);
    sha256_of(snapshot[idx as int] + snapshot[j] + snapshot[j] + snapshot[j])
}

/// One full mixing round: every position is recomputed from the pre-round
/// snapshot alone, so the round is a plain per-index map — no partition of
/// the buffer into chunks, and no scheduling of them, can change it.
pub open spec fn mix_round(snapshot: Seq<Seq<u8>>, step: u32) -> Seq<Seq<u8>> {
    Seq::new(snapshot.len(), |i: int| mixed_block(snapshot, i as u32, step))
}

/// The buffer after `time` mixing rounds over the expanded chain.
pub open spec fn buffer_after(space: u32, time: u32, password: Seq<u8>, salt: Seq<u8>) -> Seq<
    Seq<u8>,
>
    decreases time,
{
    if time == 0 {
        expand_chain(space as nat, password, salt)
    } else {
        mix_round(buffer_after(space, (time - 1) as u32, password, salt), (time - 1) as u32)
    }
}

/// The final digest: SHA-256 of the last block of the fully mixed buffer.
/// A function of the two cost parameters that shape the buffer and of the
/// input bytes alone.
pub open spec fn balloon_digest(space: u32, time: u32, password: Seq<u8>, salt: Seq<u8>) -> Seq<
    u8,
> {
    sha256_of(buffer_after(space, time, password, salt).last())
}

} // verus!
