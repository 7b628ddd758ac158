//! Facts about verdicts that hold of every registry.

use crate::hash::{BlockHash, BlockNumber};
use crate::rules::{BlockRules, LookupResult, RulesView, hash_verdict, initial, items_of, verdict};
use vstd::prelude::*;

verus! {

/// The registry after marking each hash of `hashes` unfinalized, in order.
pub open spec fn mark_all(v: RulesView, hashes: Seq<BlockHash>) -> RulesView
    decreases hashes.len(),
{
    if hashes.len() == 0 {
        v
    } else {
        mark_all(v, hashes.drop_last()).mark(hashes.last())
    }
}

/// A block whose height has no canonical hash, and whose hash is neither bad
/// nor unfinalized, is not special, by height and hash or by hash alone.
pub proof fn lemma_no_rule_not_special(rules: &BlockRules, n: BlockNumber, h: BlockHash)
    requires
        !rules@.forks.contains_key(n),
        !rules@.bad.contains(h),
        !rules@.unfinalized.contains(h),
    ensures
        verdict(rules@, n, h) == LookupResult::NotSpecial,
        hash_verdict(rules@, h) == LookupResult::NotSpecial,
{
}

/// A bad hash is reported bad at every height that has no canonical hash
/// or has this very hash as its canonical one.
pub proof fn lemma_bad_reported_bad(rules: &BlockRules, n: BlockNumber, h: BlockHash)
    requires
        rules@.bad.contains(h),
        !rules@.forks.contains_key(n) || rules@.forks[n] == h,
    ensures
        verdict(rules@, n, h) == LookupResult::KnownBad,
{
}

/// At a height with a canonical hash, any other hash is answered with the
/// canonical one, whether or not it is bad or unfinalized.
pub proof fn lemma_fork_mismatch_first(rules: &BlockRules, n: BlockNumber, h: BlockHash)
    requires
        rules@.forks.contains_key(n),
        h != rules@.forks[n],
    ensures
        verdict(rules@, n, h) == LookupResult::Expected(rules@.forks[n]),
{
}

/// Once a hash that is not bad is marked unfinalized, it is reported
/// unfinalized by hash, whatever other hashes are marked afterwards.
pub proof fn lemma_marked_stays_unfinalized(rules: &BlockRules, h: BlockHash, later: Seq<BlockHash>)
    requires
        !rules@.bad.contains(h),
    ensures
        hash_verdict(mark_all(rules@.mark(h), later), h) == LookupResult::KnownUnfinalized,
{
    lemma_mark_all_keeps(rules@.mark(h), later, h);
}

/// Marking only adds hashes: a hash unfinalized before stays unfinalized, and
/// the bad hashes and canonical hashes do not change.
proof fn lemma_mark_all_keeps(v: RulesView, hashes: Seq<BlockHash>, h: BlockHash)
    requires
        v.unfinalized.contains(h),
    ensures
        mark_all(v, hashes).unfinalized.contains(h),
        mark_all(v, hashes).bad == v.bad,
        mark_all(v, hashes).forks == v.forks,
    decreases hashes.len(),
{
    if hashes.len() > 0 {
        lemma_mark_all_keeps(v, hashes.drop_last(), h);
    }
}

/// Marking the same hash twice leaves the registry as marking it once does.
pub proof fn lemma_mark_idempotent(rules: &BlockRules, h: BlockHash)
    ensures
        rules@.mark(h).mark(h) == rules@.mark(h),
{
    assert(rules@.mark(h).mark(h).unfinalized =~= rules@.mark(h).unfinalized);
}

/// A registry built with both lists absent reports every block as not special.
pub proof fn lemma_absent_lists_not_special(n: BlockNumber, h: BlockHash)
    ensures
        verdict(initial(items_of::<(BlockNumber, BlockHash)>(None), items_of::<BlockHash>(None)), n, h)
            == LookupResult::NotSpecial,
        hash_verdict(initial(items_of::<(BlockNumber, BlockHash)>(None), items_of::<BlockHash>(None)), h)
            == LookupResult::NotSpecial,
{
}

/// Without canonical hashes the height never matters: the verdict is the
/// one on the hash alone, and never `Expected`.
pub proof fn lemma_no_forks_no_fork_check(rules: &BlockRules, n: BlockNumber, h: BlockHash)
    requires
        rules@.forks == Map::<BlockNumber, BlockHash>::empty(),
    ensures
        verdict(rules@, n, h) == hash_verdict(rules@, h),
        !(verdict(rules@, n, h) is Expected),
{
}

/// Without bad hashes no block is reported bad.
pub proof fn lemma_no_bad_never_bad(rules: &BlockRules, n: BlockNumber, h: BlockHash)
    requires
        rules@.bad == Set::<BlockHash>::empty(),
    ensures
        verdict(rules@, n, h) != LookupResult::KnownBad,
        hash_verdict(rules@, h) != LookupResult::KnownBad,
{
}

/// A hash both bad and unfinalized is reported bad by hash alone, and by
/// height and hash where the height has no other canonical hash.
pub proof fn lemma_bad_before_unfinalized(rules: &BlockRules, n: BlockNumber, h: BlockHash)
    requires
        rules@.bad.contains(h),
        rules@.unfinalized.contains(h),
    ensures
        hash_verdict(rules@, h) == LookupResult::KnownBad,
        !rules@.forks.contains_key(n) || rules@.forks[n] == h ==> verdict(rules@, n, h)
            == LookupResult::KnownBad,
{
}

/// A bad hash queried at a height whose canonical hash it is passes the
/// canonical check and is then reported bad.
pub proof fn lemma_canonical_bad_is_bad(rules: &BlockRules, n: BlockNumber, h: BlockHash)
    requires
        rules@.forks.contains_key(n),
        rules@.forks[n] == h,
        rules@.bad.contains(h),
    ensures
        verdict(rules@, n, h) == LookupResult::KnownBad,
{
}

} // verus!
