//! Chain-specific block rules: known bad blocks, blocks that must never be
//! finalized, and the canonical hash expected at chosen heights.

pub mod digest_set;
pub mod hash;
pub mod lemmas;
pub mod rules;

pub use digest_set::DigestSet;
pub use hash::{BlockHash, BlockNumber};
pub use rules::{BlockRules, LookupResult};
