//! A content-curation DAO: members advance through roles by winning timed
//! majority votes, uploaded documents pass a vote-gated approval pipeline
//! ending in an expert review, and verified contributions are rewarded
//! through a small multi-token ledger.
//!
//! All state lives in owned, verified key-value stores; callers supply the
//! current block number explicitly, so every operation is a deterministic
//! transition with a proved contract.

pub mod dao;
pub mod laws;
pub mod nft;
pub mod store;

use vstd::prelude::*;

verus! {

} // verus!
