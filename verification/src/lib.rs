//! A minimal append-only hash-chained ledger with a proof-of-work gate.
//!
//! A [`block::Block`] binds an id, a timestamp, a text payload and the hash
//! of its predecessor under a SHA-256 digest of a canonical field encoding;
//! a [`chain::Blockchain`] grows monotonically from a genesis block, admitting
//! a candidate only when it links to the tail, carries the next id, proves
//! enough work and matches its own recomputed digest.

pub mod binary;
pub mod block;
pub mod chain;
pub mod digits;
pub mod encoding;
pub mod hexcodec;
pub mod laws;
