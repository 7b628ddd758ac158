use crate::digest_set::DigestSet;
use crate::hash::{BlockHash, BlockNumber};
use std::collections::HashMap;
use vstd::prelude::*;

verus! {

broadcast use vstd::std_specs::hash::group_hash_axioms;

/// What the rules say about one block.
#[derive(Clone, Copy, Debug, PartialEq, Eq, Structural)]
pub enum LookupResult {
    /// No rule concerns this block.
    NotSpecial,
    /// The block is known to be bad and must not be imported.
    KnownBad,
    /// The block may be imported but must never be finalized.
    KnownUnfinalized,
    /// Only the enclosed hash is canonical at this height, and the block's hash differs.
    Expected(BlockHash),
}

impl LookupResult {
    /// Whether the verdict forbids finalizing the block.
    pub fn is_unfinalized(&self) -> (r: bool)
        ensures
            r == (*self == LookupResult::KnownUnfinalized),
    {
        match self {
            LookupResult::KnownUnfinalized => true,
            _ => false,
        }
    }
}

/// The content of a `BlockRules` registry.
pub struct RulesView {
    /// Hashes of blocks that must be rejected.
    pub bad: Set<BlockHash>,
    /// Hashes of blocks that must never be finalized.
    pub unfinalized: Set<BlockHash>,
    /// The canonical hash at each height that has one.
    pub forks: Map<BlockNumber, BlockHash>,
}

impl RulesView {
    /// The registry after `h` is marked unfinalized.
    pub open spec fn mark(self, h: BlockHash) -> RulesView {
        RulesView { unfinalized: self.unfinalized.insert(h), ..self }
    }
}

/// The verdict on a block known by its hash alone: bad first, then unfinalized.
pub open spec fn hash_verdict(v: RulesView, h: BlockHash) -> LookupResult {
    if v.bad.contains(h) {
        LookupResult::KnownBad
    } else if v.unfinalized.contains(h) {
        LookupResult::KnownUnfinalized
    } else {
        LookupResult::NotSpecial
    }
}

/// The verdict on a block of height `n` and hash `h`: a different canonical
/// hash at `n` comes first, then the verdict on the hash alone.
pub open spec fn verdict(v: RulesView, n: BlockNumber, h: BlockHash) -> LookupResult {
    if v.forks.contains_key(n) && v.forks[n] != h {
        LookupResult::Expected(v.forks[n])
    } else {
        hash_verdict(v, h)
    }
}

/// The map that folding `pairs` into an empty map gives: on a repeated
/// height the last pair wins.
pub open spec fn forks_of(pairs: Seq<(BlockNumber, BlockHash)>) -> Map<BlockNumber, BlockHash>
    decreases pairs.len(),
{
    if pairs.len() == 0 {
        Map::empty()
    } else {
        forks_of(pairs.drop_last()).insert(pairs.last().0, pairs.last().1)
    }
}

/// The items of an optional list; an absent list has none.
pub open spec fn items_of<T>(list: Option<Vec<T>>) -> Seq<T> {
    match list {
        Some(v) => v@,
        None => Seq::empty(),
    }
}

/// The registry that `BlockRules::new` builds from the items of its two lists.
pub open spec fn initial(
    fork_blocks: Seq<(BlockNumber, BlockHash)>,
    bad_blocks: Seq<BlockHash>,
) -> RulesView {
    RulesView {
        bad: bad_blocks.to_set(),
        unfinalized: Set::empty(),
        forks: forks_of(fork_blocks),
    }
}

/// Chain-specific block filtering rules: known bad blocks, blocks that must
/// never be finalized, and the canonical hash at chosen heights.
///
/// Bad hashes and canonical hashes are fixed at construction; only the
/// unfinalized hashes grow. Lookups take `&self` and marking takes `&mut self`,
/// so a registry shared between threads is read freely and marked under an
/// exclusive lock, and no lookup sees a half-done mark.
pub struct BlockRules {
    bad: DigestSet,
    unfinalized: DigestSet,
    forks: HashMap<BlockNumber, BlockHash>,
}

impl View for BlockRules {
    type V = RulesView;

    closed spec fn view(&self) -> RulesView {
        RulesView { bad: self.bad@, unfinalized: self.unfinalized@, forks: self.forks@ }
    }
}

impl BlockRules {
    /// Rules with the given canonical hashes by height and bad hashes. An
    /// absent list counts as empty; where a height repeats, its last pair wins.
    pub fn new(
        fork_blocks: Option<Vec<(BlockNumber, BlockHash)>>,
        bad_blocks: Option<Vec<BlockHash>>,
    ) -> (r: BlockRules)
        ensures
            r@ == initial(items_of(fork_blocks), items_of(bad_blocks)),
    {
        let bad = match bad_blocks {
            Some(hashes) => DigestSet::from_hashes(hashes),
            None => DigestSet::new(),
        };
        let pairs = match fork_blocks {
            Some(pairs) => pairs,
            None => Vec::new(),
        };
        let mut forks: HashMap<BlockNumber, BlockHash> = HashMap::new();
        let mut i: usize = 0;
        while i < pairs.len()
            invariant
                i <= pairs@.len(),
                forks@ == forks_of(pairs@.take(i as int)),
            decreases pairs@.len() - i,
        {
            let (n, h) = pairs[i];
            forks.insert(n, h);
            assert(pairs@.take(i + 1).drop_last() == pairs@.take(i as int));
            i = i + 1;
        }
        assert(pairs@.take(pairs@.len() as int) == pairs@);
        let r = BlockRules { bad, unfinalized: DigestSet::new(), forks };
        assert(r@.bad == items_of(bad_blocks).to_set());
        r
    }

    /// Marks the block of hash `hash` as one that must never be finalized.
    pub fn mark_unfinalized(&mut self, hash: BlockHash)
        ensures
            final(self)@ == old(self)@.mark(hash),
    {
        self.unfinalized.insert(hash);
    }

    /// The verdict on the block of height `number` and hash `hash`.
    pub fn lookup(&self, number: BlockNumber, hash: &BlockHash) -> (r: LookupResult)
        ensures
            r == verdict(self@, number, *hash),
    {
        match self.forks.get(&number) {
            Some(hash_for_height) => {
                if *hash_for_height != *hash {
                    return LookupResult::Expected(*hash_for_height);
                }
            },
            None => {},
        }
        self.lookup_hash(hash)
    }

    /// The verdict on the block of hash `hash`, whose height is not known.
    pub fn lookup_hash(&self, hash: &BlockHash) -> (r: LookupResult)
        ensures
            r == hash_verdict(self@, *hash),
    {
        if self.bad.contains(hash) {
            return LookupResult::KnownBad;
        }
        if self.unfinalized.contains(hash) {
            return LookupResult::KnownUnfinalized;
        }
        LookupResult::NotSpecial
    }
}

} // verus!
