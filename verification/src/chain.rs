//! The chain: genesis bootstrap, candidate validation and append.

use vstd::prelude::*;
use vstd::string::*;
use crate::binary::{meets_difficulty, meets_difficulty_check};
use crate::block::{no_nonce_meets, Block};
use crate::hexcodec::{
    decoded_hex,
    hex_decode,
    hex_encode,
    hex_of,
    lemma_hex_round_trip,
    valid_hex,
};

verus! {

/// `block` carries the next id and links back to `prev`.
pub open spec fn chained(prev: Block, block: Block) -> bool {
    &&& block.prev_block_hash@ == prev.hash@
    &&& block.id == prev.id + 1
}

/// The validation rule for a candidate against the current tail: the
/// previous-hash link holds, the stored hash is a well-formed hex string
/// whose bytes carry the required work, the id is the successor of the
/// tail's, and the digest recomputed from the candidate's own fields matches
/// its stored hash.
pub open spec fn block_valid_spec(block: Block, prev_block: Block) -> bool {
    &&& block.prev_block_hash@ == prev_block.hash@
    &&& valid_hex(block.hash@)
    &&& meets_difficulty(decoded_hex(block.hash@))
    &&& block.id == prev_block.id + 1
    &&& block.hash@ == hex_of(block.digest())
}

/// The validation rule, restated over the recomputed digest: a candidate is
/// valid against the tail exactly when it is properly mined and chained to it.
pub proof fn lemma_block_valid_spec_iff(block: Block, prev_block: Block)
    ensures
        block_valid_spec(block, prev_block) <==> (chained(prev_block, block) && block.mined()),
{
    lemma_hex_round_trip(block.digest());
}

/// The ordered ledger, genesis first.
pub struct Blockchain {
    pub blocks: Vec<Block>,
}

impl Blockchain {
    /// The chain invariant: every block is properly mined, and every block
    /// after the first carries the next id and links back to its predecessor.
    pub open spec fn wf(self) -> bool {
        &&& forall|i: int| 0 <= i < self.blocks@.len() ==> (#[trigger] self.blocks@[i]).mined()
        &&& forall|i: int|
            0 < i < self.blocks@.len() ==> chained(self.blocks@[i - 1], #[trigger] self.blocks@[i])
    }

    /// Creates an empty chain.
    pub fn new() -> (r: Blockchain)
        ensures
            r.blocks@.len() == 0,
            r.wf(),
    {
        Blockchain { blocks: Vec::new() }
    }

    /// Seeds the chain with its single sentinel block, mined like any other.
    /// The chain stays empty only if mining found no nonce at all for the
    /// captured timestamp.
    pub fn genesis(&mut self)
        requires
            old(self).blocks@.len() == 0,
        ensures
            final(self).blocks@.len() <= 1,
            final(self).blocks@.len() == 1 ==> {
                let b = final(self).blocks@[0];
                &&& b.id == 0
                &&& b.data@ == "genesis"@
                &&& b.prev_block_hash@ == "genesis"@
                &&& b.mined()
            },
            final(self).blocks@.len() == 0 ==> exists|ts: i64|
                #[trigger] no_nonce_meets(0, "genesis"@, "genesis"@, ts),
            final(self).wf(),
    {
        let data = String::from_str("genesis");
        let prev = String::from_str("genesis");
        let ghost data_view = data@;
        let ghost prev_view = prev@;
        match Block::new(0, data, prev) {
            Option::Some(b) => {
                self.blocks.push(b);
            },
            Option::None => {
                proof {
                    let ts = choose|ts: i64| no_nonce_meets(0, prev_view, data_view, ts);
                    assert(no_nonce_meets(0, "genesis"@, "genesis"@, ts));
                }
            },
        }
    }

    /// Decides the validation rule for a candidate against a tail block.
    pub fn block_valid(&self, block: &Block, prev_block: &Block) -> (r: bool)
        ensures
            r == block_valid_spec(*block, *prev_block),
    {
        if !(block.prev_block_hash == prev_block.hash) {
            return false;
        }
        match hex_decode(block.hash.as_str()) {
            Result::Err(_) => {
                return false;
            },
            Result::Ok(bytes) => {
                if !meets_difficulty_check(bytes.as_slice()) {
                    return false;
                }
            },
        }
        if !(block.id > 0 && block.id - 1 == prev_block.id) {
            return false;
        }
        let digest = block.block_hash();
        let rendered = hex_encode(&digest);
        if !(rendered == block.hash) {
            return false;
        }
        true
    }

    /// Validates the candidate against the current tail; appends it on
    /// success and leaves the chain untouched on failure.
    pub fn add_block(&mut self, block: Block)
        requires
            old(self).blocks@.len() > 0,
        ensures
            block_valid_spec(block, old(self).blocks@.last()) ==> final(self).blocks@ == old(
                self,
            ).blocks@.push(block),
            !block_valid_spec(block, old(self).blocks@.last()) ==> final(self).blocks@ == old(
                self,
            ).blocks@,
            old(self).wf() ==> final(self).wf(),
    {
        let n: usize = self.blocks.len();
        let valid = self.block_valid(&block, &self.blocks[n - 1]);
        if valid {
            proof {
                lemma_block_valid_spec_iff(block, self.blocks@.last());
                if self.wf() {
                    let pushed = self.blocks@.push(block);
                    assert forall|i: int| 0 <= i < pushed.len() implies (
                    #[trigger] pushed[i]).mined() by {
                        if i < pushed.len() - 1 {
                            assert(pushed[i] == self.blocks@[i]);
                        }
                    }
                    assert forall|i: int| 0 < i < pushed.len() implies chained(
                        pushed[i - 1],
                        #[trigger] pushed[i],
                    ) by {
                        if i < pushed.len() - 1 {
                            assert(pushed[i] == self.blocks@[i]);
                            assert(pushed[i - 1] == self.blocks@[i - 1]);
                        } else {
                            assert(pushed[i - 1] == self.blocks@.last());
                        }
                    }
                }
            }
            self.blocks.push(block);
        }
    }
}

} // verus!
