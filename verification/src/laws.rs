//! The properties the ledger guarantees, stated and proved once for all
//! chains and blocks.

use vstd::prelude::*;
use crate::binary::meets_difficulty;
use crate::block::Block;
use crate::chain::{block_valid_spec, Blockchain};
use crate::encoding::field_digest;
use crate::hexcodec::hex_of;

verus! {

/// Determinism: the digest depends on the hashed fields alone, so blocks that
/// agree on id, previous hash, payload, timestamp and nonce have the same
/// digest, whatever their stored hashes.
pub proof fn lemma_digest_deterministic(a: Block, b: Block)
    requires
        a.id == b.id,
        a.prev_block_hash@ == b.prev_block_hash@,
        a.data@ == b.data@,
        a.timestamp == b.timestamp,
        a.nonce == b.nonce,
    ensures
        a.digest() == b.digest(),
{
}

/// Mining determinism: two mined blocks over the same fields and timestamp
/// that each carry the least satisfying nonce — as every block built by the
/// mining search does — agree on nonce and hash.
pub proof fn lemma_mining_deterministic(a: Block, b: Block)
    requires
        a.id == b.id,
        a.prev_block_hash@ == b.prev_block_hash@,
        a.data@ == b.data@,
        a.timestamp == b.timestamp,
        a.mined(),
        b.mined(),
        forall|m: u64|
            m < a.nonce ==> !meets_difficulty(
                field_digest(a.id, a.prev_block_hash@, a.data@, a.timestamp, m),
            ),
        forall|m: u64|
            m < b.nonce ==> !meets_difficulty(
                field_digest(b.id, b.prev_block_hash@, b.data@, b.timestamp, m),
            ),
    ensures
        a.nonce == b.nonce,
        a.hash@ == b.hash@,
{
    if a.nonce < b.nonce {
        assert(!meets_difficulty(a.digest()));
    } else if b.nonce < a.nonce {
        assert(!meets_difficulty(b.digest()));
    }
}

/// Chain link: in a well-formed chain, every block after the first stores the
/// hash of its predecessor.
pub proof fn lemma_chain_link(chain: Blockchain, i: int)
    requires
        chain.wf(),
        0 < i < chain.blocks@.len(),
    ensures
        chain.blocks@[i].prev_block_hash@ == chain.blocks@[i - 1].hash@,
{
}

/// Sequential ids: in a well-formed chain, every block after the first
/// carries the id of its predecessor plus one.
pub proof fn lemma_sequential_ids(chain: Blockchain, i: int)
    requires
        chain.wf(),
        0 < i < chain.blocks@.len(),
    ensures
        chain.blocks@[i].id == chain.blocks@[i - 1].id + 1,
{
}

/// Difficulty: in a well-formed chain, the binary rendering of every block's
/// raw digest bytes starts with the difficulty prefix, and the stored hash is
/// that digest's hex rendering.
pub proof fn lemma_difficulty(chain: Blockchain, i: int)
    requires
        chain.wf(),
        0 <= i < chain.blocks@.len(),
    ensures
        meets_difficulty(chain.blocks@[i].digest()),
        chain.blocks@[i].hash@ == hex_of(chain.blocks@[i].digest()),
{
}

/// Tamper detection: a block whose stored hash differs from the digest
/// recomputed over its own fields — as it does after any field of a mined
/// block is changed without re-mining — is rejected against every tail.
pub proof fn lemma_tamper_detected(block: Block, tail: Block)
    requires
        block.hash@ != hex_of(block.digest()),
    ensures
        !block_valid_spec(block, tail),
{
}

} // verus!
