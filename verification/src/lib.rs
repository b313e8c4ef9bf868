//! A memory-hard password hashing primitive in the style of Balloon
//! Hashing: a 32-byte digest is derived from a password and a salt by
//! expanding a hash chain into a working buffer of `space_cost` blocks,
//! mixing the whole buffer for `time_cost` rounds from a per-round
//! snapshot, and hashing the last block. `parallel_cost` bounds how finely
//! a round is split across worker threads; the digest never depends on it.

use rayon::iter::{IndexedParallelIterator, IntoParallelIterator, ParallelIterator};
use vstd::bytes::{u32_from_le_bytes, u32_to_le_bytes};
use vstd::prelude::*;
use vstd::slice::{slice_index_get, slice_subrange};

pub mod model;
pub mod sha;

use crate::model::{
    balloon_digest, block_index, block_views, buffer_after, expand_chain, mix_round, mixed_block,
};
use crate::sha::sha256;

verus! {

/// Appends the bytes of `src` to `dst`.
fn append_bytes(dst: &mut Vec<u8>, src: &[u8])
    ensures
        final(dst)@ == old(dst)@ + src@,
{
    let ghost dst0 = dst@;
    let mut j: usize = 0;
    while j < src.len()
        invariant
            j <= src@.len(),
            dst@ == dst0 + src@.subrange(0, j as int),
        decreases src@.len() - j,
    {
        let b: u8 = *slice_index_get(src, j);
        dst.push(b);
        proof {
            assert(dst@ =~= dst0 + src@.subrange(0, j as int + 1));
        }
        j += 1;
    }
    proof {
        assert(src@.subrange(0, src@.len() as int) =~= src@);
    }
}

/// The parameter that a rejected construction names.
#[derive(Clone, Copy, Debug, PartialEq, Eq, Structural)]
pub enum InvalidParameter {
    SpaceCost,
    TimeCost,
    ParallelCost,
}

/// A validated configuration: three positive cost parameters.
#[derive(Clone, Copy, Debug)]
pub struct BalloonHash {
    /// Number of blocks in the working buffer.
    pub space_cost: u32,
    /// Number of mixing rounds.
    pub time_cost: u32,
    /// Number of concurrent chunks per round.
    pub parallel_cost: u32,
}

impl BalloonHash {
    /// All three cost parameters are positive.
    pub open spec fn wf(&self) -> bool {
        &&& self.space_cost >= 1
        &&& self.time_cost >= 1
        &&& self.parallel_cost >= 1
    }

    /// Construction succeeds exactly when every parameter is at least 1;
    /// otherwise it reports the first parameter that is zero.
    pub fn new(space_cost: u32, time_cost: u32, parallel_cost: u32) -> (r: Result<
        BalloonHash,
        InvalidParameter,
    >)
        ensures
            r is Ok <==> (space_cost >= 1 && time_cost >= 1 && parallel_cost >= 1),
            r is Ok ==> r == Ok::<BalloonHash, InvalidParameter>(
                (BalloonHash { space_cost, time_cost, parallel_cost }),
            ),
            space_cost == 0 ==> r == Err::<BalloonHash, InvalidParameter>(
                InvalidParameter::SpaceCost,
            ),
            space_cost >= 1 && time_cost == 0 ==> r == Err::<BalloonHash, InvalidParameter>(
                InvalidParameter::TimeCost,
            ),
            space_cost >= 1 && time_cost >= 1 && parallel_cost == 0 ==> r == Err::<
                BalloonHash,
                InvalidParameter,
            >(InvalidParameter::ParallelCost),
            r matches Ok(c) ==> c.wf(),
    {
        if space_cost < 1 {
            return Err(InvalidParameter::SpaceCost);
        }
        if time_cost < 1 {
            return Err(InvalidParameter::TimeCost);
        }
        if parallel_cost < 1 {
            return Err(InvalidParameter::ParallelCost);
        }
        Ok(BalloonHash { space_cost, time_cost, parallel_cost })
    }

    /// Derives the pseudo-random lookup index for block `current` in round
    /// `step`: hash the little-endian encodings of position and round, read
    /// the first four digest bytes as a little-endian word, reduce modulo
    /// the block count.
    fn get_block_index(&self, current: u32, step: u32, total_blocks: u32) -> (r: u32)
        requires
            total_blocks >= 1,
        ensures
            r == block_index(current, step, total_blocks),
            r < total_blocks,
    {
        let mut seed: Vec<u8> = u32_to_le_bytes(current);
        let step_bytes: Vec<u8> = u32_to_le_bytes(step);
        append_bytes(&mut seed, step_bytes.as_slice());
        let digest: Vec<u8> = sha256(seed.as_slice());
        let word: u32 = u32_from_le_bytes(slice_subrange(digest.as_slice(), 0, 4));
        word % total_blocks
    }

    /// Expands `password` and `salt` into the initial working buffer: block 0
    /// hashes `password ++ salt`, every further block hashes its predecessor.
    fn expand(&self, password: &[u8], salt: &[u8]) -> (buffer: Vec<Vec<u8>>)
        requires
            self.space_cost >= 1,
        ensures
            block_views(buffer@) == expand_chain(self.space_cost as nat, password@, salt@),
            buffer@.len() == self.space_cost,
    {
        let mut seed: Vec<u8> = Vec::new();
        append_bytes(&mut seed, password);
        append_bytes(&mut seed, salt);
        proof {
            assert(seed@ =~= password@ + salt@);
        }
        let mut buffer: Vec<Vec<u8>> = Vec::new();
        buffer.push(sha256(seed.as_slice()));
        proof {
            assert(block_views(buffer@) =~= expand_chain(1nat, password@, salt@));
        }
        let mut i: u32 = 1;
        while i < self.space_cost
            invariant
                1 <= i <= self.space_cost,
                buffer@.len() == i,
                block_views(buffer@) == expand_chain(i as nat, password@, salt@),
            decreases self.space_cost - i,
        {
            let tail: usize = buffer.len() - 1;
            let next: Vec<u8> = sha256(slice_index_get(buffer.as_slice(), tail).as_slice());
            buffer.push(next);
            proof {
                assert(block_views(buffer@) =~= expand_chain((i + 1) as nat, password@, salt@));
            }
            i += 1;
        }
        buffer
    }

    /// Derives the digest for `password` and `salt`: expand the initial
    /// buffer, mix it for `time_cost` rounds, hash the last block. The
    /// result is exactly 32 bytes and is a function of `space_cost`,
    /// `time_cost` and the two inputs alone; there is no error path.
    pub fn hash(&self, password: &[u8], salt: &[u8]) -> (r: Vec<u8>)
        requires
            self.wf(),
        ensures
            r@ == balloon_digest(self.space_cost, self.time_cost, password@, salt@),
            r@.len() == 32,
    {
        let mut buffer: Vec<Vec<u8>> = self.expand(password, salt);
        let mut step: u32 = 0;
        while step < self.time_cost
            invariant
                self.wf(),
                step <= self.time_cost,
                buffer@.len() == self.space_cost,
                block_views(buffer@) == buffer_after(self.space_cost, step, password@, salt@),
            decreases self.time_cost - step,
        {
            self.mix(&mut buffer, step);
            step += 1;
        }
        let tail: usize = buffer.len() - 1;
        sha256(slice_index_get(buffer.as_slice(), tail).as_slice())
    }

    /// Recomputes the block at `idx` for round `step` from the pre-round
    /// snapshot: hash the block's own bytes followed by three lookups of the
    /// index-derived snapshot block.
    pub(crate) fn mix_block(&self, snapshot: &Vec<Vec<u8>>, idx: usize, step: u32) -> (r: Vec<
        u8,
    >)
        requires
            snapshot@.len() <= u32::MAX,
            idx < snapshot@.len(),
        ensures
            r@ == mixed_block(block_views(snapshot@), idx as u32, step),
    {
        let total: u32 = snapshot.len() as u32;
        let mut data: Vec<u8> = Vec::new();
        append_bytes(&mut data, slice_index_get(snapshot.as_slice(), idx).as_slice());
        // Each of the three lookups derives its index afresh; the derivation
        // is a pure function of (idx, step, total), so all three agree.
        let j1: u32 = self.get_block_index(idx as u32, step, total);
        append_bytes(&mut data, slice_index_get(snapshot.as_slice(), j1 as usize).as_slice());
        let j2: u32 = self.get_block_index(idx as u32, step, total);
        append_bytes(&mut data, slice_index_get(snapshot.as_slice(), j2 as usize).as_slice());
        let j3: u32 = self.get_block_index(idx as u32, step, total);
        append_bytes(&mut data, slice_index_get(snapshot.as_slice(), j3 as usize).as_slice());
        proof {
            assert(data@ =~= snapshot@[idx as int]@ + snapshot@[j1 as int]@ + snapshot@[
                j2 as int
            ]@ + snapshot@[j3 as int]@);
        }
        sha256(data.as_slice())
    }

    /// One mixing round over the whole buffer: every position is recomputed
    /// by `mix_block` from the buffer state at entry, taken as the round's
    /// read-only snapshot. The postcondition mentions neither
    /// `parallel_cost` nor the chunking, so the digest cannot depend on
    /// either.
    fn mix(&self, buffer: &mut Vec<Vec<u8>>, step: u32)
        requires
            self.wf(),
            old(buffer)@.len() == self.space_cost,
        ensures
            block_views(final(buffer)@) == mix_round(block_views(old(buffer)@), step),
            final(buffer)@.len() == self.space_cost,
    {
        assert((self.space_cost as int - 1) / (self.parallel_cost as int) <= self.space_cost as int
            - 1) by (nonlinear_arith)
            requires
                self.space_cost >= 1,
                self.parallel_cost >= 1,
        ;
        let chunk_size: u32 = (self.space_cost - 1) / self.parallel_cost + 1;
        let next: Vec<Vec<u8>> = par_mix_round(self, buffer, chunk_size as usize, step);
        *buffer = next;
        proof {
            assert(buffer@.len() == block_views(buffer@).len());
            assert(mix_round(block_views(old(buffer)@), step).len() == block_views(
                old(buffer)@,
            ).len());
        }
    }
}

/// Relies on rayon (`into_par_iter` over a range, `with_min_len`, `map`,
/// `collect`): an indexed parallel map collects into a `Vec` in index order,
/// applying its closure once per index; the closure only calls the verified
/// `mix_block`. `with_min_len` keeps each scheduled piece at least
/// `chunk_size` indices long, so at most about `parallel_cost` chunks run
/// concurrently; it affects scheduling only, never the collected values.
#[verifier::external_body]
fn par_mix_round(cfg: &BalloonHash, snapshot: &Vec<Vec<u8>>, chunk_size: usize, step: u32) -> (r:
    Vec<Vec<u8>>)
    requires
        1 <= snapshot@.len() <= u32::MAX,
        chunk_size >= 1,
    ensures
        block_views(r@) == mix_round(block_views(snapshot@), step),
{
    (0..snapshot.len())
        .into_par_iter()
        .with_min_len(chunk_size)
        .map(|idx| cfg.mix_block(snapshot, idx, step))
        .collect()
}

/// Determinism: any two results that meet the contract of `hash` for the
/// same configuration, password and salt are the same 32-byte value.
pub proof fn lemma_hash_deterministic(
    cfg: BalloonHash,
    password: Seq<u8>,
    salt: Seq<u8>,
    r1: Seq<u8>,
    r2: Seq<u8>,
)
    requires
        r1 == balloon_digest(cfg.space_cost, cfg.time_cost, password, salt),
        r2 == balloon_digest(cfg.space_cost, cfg.time_cost, password, salt),
    ensures
        r1 == r2,
{
}

/// Concurrency-independence: the digest depends only on `space_cost`,
/// `time_cost` and the inputs. Two configurations that agree on those two
/// costs hash every password and salt identically, whatever their
/// `parallel_cost` — and so whatever chunking the mixing rounds use.
pub proof fn lemma_parallel_cost_independent(
    c1: BalloonHash,
    c2: BalloonHash,
    password: Seq<u8>,
    salt: Seq<u8>,
)
    requires
        c1.space_cost == c2.space_cost,
        c1.time_cost == c2.time_cost,
    ensures
        balloon_digest(c1.space_cost, c1.time_cost, password, salt) == balloon_digest(
            c2.space_cost,
            c2.time_cost,
            password,
            salt,
        ),
{
}

} // verus!
