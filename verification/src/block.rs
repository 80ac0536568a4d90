//! One record of the ledger: construction, hashing and mining.

use vstd::prelude::*;
use crate::binary::{meets_difficulty, meets_difficulty_check};
use crate::encoding::{field_digest, compute_field_digest};
use crate::hexcodec::{hex_of, hex_encode};

verus! {

/// No nonce at all yields a digest that meets the difficulty for the given
/// fields at the given timestamp.
pub open spec fn no_nonce_meets(id: u64, prev_block_hash: Seq<char>, data: Seq<char>, timestamp: i64) -> bool {
    forall|n: u64| !meets_difficulty(field_digest(id, prev_block_hash, data, timestamp, n))
}

/// One immutable-once-mined record: an id, a capture-time timestamp, a text
/// payload, the hex digest of the predecessor, its own hex digest, and the
/// nonce found by mining.
#[derive(Debug, Clone)]
pub struct Block {
    pub id: u64,
    pub timestamp: i64,
    pub data: String,
    pub prev_block_hash: String,
    pub hash: String,
    pub nonce: u64,
}

impl Block {
    /// The digest over this block's own fields; the stored `hash` is not part
    /// of its own input.
    pub open spec fn digest(self) -> Seq<u8> {
        field_digest(self.id, self.prev_block_hash@, self.data@, self.timestamp, self.nonce)
    }

    /// A properly mined block: the stored hash is the hex rendering of the
    /// digest recomputed from the block's own fields, and that digest carries
    /// the required work.
    pub open spec fn mined(self) -> bool {
        &&& self.hash@ == hex_of(self.digest())
        &&& meets_difficulty(self.digest())
    }

    /// The digest over this block's fields, as raw bytes.
    pub fn block_hash(&self) -> (r: Vec<u8>)
        ensures
            r@ == self.digest(),
            r@.len() == 32,
    {
        compute_field_digest(
            self.id,
            self.prev_block_hash.as_str(),
            self.data.as_str(),
            self.timestamp,
            self.nonce,
        )
    }

    /// Searches nonces upward from the current one until the digest over the
    /// block's fields meets the difficulty; returns the least such nonce and
    /// the hex rendering of its digest, or `None` once the nonce space is
    /// exhausted without a hit.
    fn mine_block(&mut self) -> (r: Option<(u64, String)>)
        ensures
            final(self).id == old(self).id,
            final(self).timestamp == old(self).timestamp,
            final(self).data@ == old(self).data@,
            final(self).prev_block_hash@ == old(self).prev_block_hash@,
            final(self).hash@ == old(self).hash@,
            r is Some <==> exists|n: u64|
                n >= old(self).nonce && meets_difficulty(
                    field_digest(
                        old(self).id,
                        old(self).prev_block_hash@,
                        old(self).data@,
                        old(self).timestamp,
                        n,
                    ),
                ),
            r matches Some((nonce, hash)) ==> {
                &&& final(self).nonce == nonce
                &&& nonce >= old(self).nonce
                &&& forall|m: u64|
                    old(self).nonce <= m < nonce ==> !meets_difficulty(
                        field_digest(
                            old(self).id,
                            old(self).prev_block_hash@,
                            old(self).data@,
                            old(self).timestamp,
                            m,
                        ),
                    )
                &&& hash@ == hex_of(
                    field_digest(
                        old(self).id,
                        old(self).prev_block_hash@,
                        old(self).data@,
                        old(self).timestamp,
                        nonce,
                    ),
                )
                &&& meets_difficulty(
                    field_digest(
                        old(self).id,
                        old(self).prev_block_hash@,
                        old(self).data@,
                        old(self).timestamp,
                        nonce,
                    ),
                )
            },
    {
        let ghost orig = *self;
        let mut nonce: u64 = self.nonce;
        loop
            invariant
                orig == *old(self),
                self.id == orig.id,
                self.timestamp == orig.timestamp,
                self.data@ == orig.data@,
                self.prev_block_hash@ == orig.prev_block_hash@,
                self.hash@ == orig.hash@,
                nonce >= orig.nonce,
                forall|m: u64|
                    orig.nonce <= m < nonce ==> !meets_difficulty(
                        field_digest(orig.id, orig.prev_block_hash@, orig.data@, orig.timestamp, m),
                    ),
            decreases u64::MAX - nonce,
        {
            self.nonce = nonce;
            let digest = self.block_hash();
            if meets_difficulty_check(digest.as_slice()) {
                let hash = hex_encode(&digest);
                return Some((nonce, hash));
            }
            if nonce == u64::MAX {
                proof {
                    assert forall|n: u64| n >= orig.nonce implies !meets_difficulty(
                        field_digest(orig.id, orig.prev_block_hash@, orig.data@, orig.timestamp, n),
                    ) by {
                        if n < u64::MAX {
                            assert(orig.nonce <= n < nonce);
                        }
                    }
                }
                return None;
            }
            nonce = nonce + 1;
        }
    }

    /// Builds and mines a block over the given fields at the given timestamp:
    /// the search starts at nonce zero and increments, so the block carries
    /// the least satisfying nonce. Returns `None` exactly when no nonce at
    /// all yields a digest that meets the difficulty.
    pub fn with_timestamp(id: u64, data: String, prev_block_hash: String, timestamp: i64) -> (r:
        Option<Block>)
        ensures
            r is Some <==> exists|n: u64|
                meets_difficulty(field_digest(id, prev_block_hash@, data@, timestamp, n)),
            r matches Some(b) ==> {
                &&& b.id == id
                &&& b.data@ == data@
                &&& b.prev_block_hash@ == prev_block_hash@
                &&& b.timestamp == timestamp
                &&& b.mined()
                &&& forall|m: u64|
                    m < b.nonce ==> !meets_difficulty(
                        field_digest(id, prev_block_hash@, data@, timestamp, m),
                    )
            },
    {
        let mut block = Block {
            id,
            data,
            timestamp,
            prev_block_hash,
            hash: String::new(),
            nonce: 0,
        };
        match block.mine_block() {
            Option::Some((nonce, hash)) => {
                block.nonce = nonce;
                block.hash = hash;
                Option::Some(block)
            },
            Option::None => Option::None,
        }
    }

    /// Builds and mines a block over the given fields, capturing the current
    /// wall-clock time as its timestamp; the block carries the least
    /// satisfying nonce for that timestamp. Returns `None` exactly when, at
    /// the captured timestamp, no nonce at all yields a digest that meets the
    /// difficulty.
    pub fn new(id: u64, data: String, prev_block_hash: String) -> (r: Option<Block>)
        ensures
            r matches Some(b) ==> {
                &&& b.id == id
                &&& b.data@ == data@
                &&& b.prev_block_hash@ == prev_block_hash@
                &&& b.mined()
                &&& forall|m: u64|
                    m < b.nonce ==> !meets_difficulty(
                        field_digest(id, prev_block_hash@, data@, b.timestamp, m),
                    )
            },
            r is None ==> exists|ts: i64| #[trigger] no_nonce_meets(id, prev_block_hash@, data@, ts),
    {
        let timestamp: i64 = now_timestamp();
        let r = Block::with_timestamp(id, data, prev_block_hash, timestamp);
        proof {
            if r is None {
                assert(no_nonce_meets(id, prev_block_hash@, data@, timestamp));
            }
        }
        r
    }
}

/// Relies on chrono::Utc::now: the current wall-clock time as whole seconds
/// since the epoch; nothing is assumed of the value. chrono panics when the
/// system clock is set before the Unix epoch; the call takes no inputs, so no
/// precondition can exclude that machine state.
#[verifier::external_body]
fn now_timestamp() -> i64 {
    chrono::Utc::now().timestamp()
}

} // verus!
