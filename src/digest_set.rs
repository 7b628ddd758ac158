use crate::hash::BlockHash;
use std::collections::HashMap;
use vstd::prelude::*;

verus! {

broadcast use vstd::std_specs::hash::group_hash_axioms;

/// A set of block hashes. Hashes are spread over buckets by their leading
/// word, so a probe reads one bucket, which holds only hashes sharing that word.
pub struct DigestSet {
    buckets: HashMap<u64, Vec<BlockHash>>,
}

impl View for DigestSet {
    type V = Set<BlockHash>;

    closed spec fn view(&self) -> Set<BlockHash> {
        Set::new(
            |h: BlockHash|
                self.buckets@.contains_key(h.bucket_key()) && self.buckets@[h.bucket_key()]@.contains(h),
        )
    }
}

/// Whether `h` occurs in `bucket`.
fn bucket_contains(bucket: &Vec<BlockHash>, h: &BlockHash) -> (r: bool)
    ensures
        r == bucket@.contains(*h),
{
    let mut i: usize = 0;
    while i < bucket.len()
        invariant
            i <= bucket@.len(),
            forall|j: int| 0 <= j < i ==> bucket@[j] != *h,
        decreases bucket@.len() - i,
    {
        if bucket[i] == *h {
            return true;
        }
        i = i + 1;
    }
    false
}

impl DigestSet {
    /// Every hash stands in the bucket of its own leading word.
    #[verifier::type_invariant]
    closed spec fn well_formed(self) -> bool {
        forall|k: u64, j: int|
            #![trigger self.buckets@[k]@[j]]
            self.buckets@.contains_key(k) && 0 <= j < self.buckets@[k]@.len()
                ==> self.buckets@[k]@[j].bucket_key() == k
    }

    /// An empty set.
    pub fn new() -> (r: DigestSet)
        ensures
            r@ == Set::<BlockHash>::empty(),
    {
        let r = DigestSet { buckets: HashMap::new() };
        assert(r@ =~= Set::<BlockHash>::empty());
        r
    }

    /// The set of the hashes in `hashes`; repeated ones count once.
    pub fn from_hashes(hashes: Vec<BlockHash>) -> (r: DigestSet)
        ensures
            r@ == hashes@.to_set(),
    {
        let mut r = DigestSet::new();
        let mut i: usize = 0;
        while i < hashes.len()
            invariant
                i <= hashes@.len(),
                r@ == hashes@.take(i as int).to_set(),
            decreases hashes@.len() - i,
        {
            let h = hashes[i];
            r.insert(h);
            let ghost prefix = hashes@.take(i as int);
            assert(hashes@.take(i + 1) == prefix.push(h));
            assert forall|g: BlockHash| prefix.push(h).contains(g) <==> (prefix.contains(g) || g == h) by {
                if prefix.contains(g) {
                    let j = choose|j: int| 0 <= j < prefix.len() && prefix[j] == g;
                    assert(prefix.push(h)[j] == g);
                }
                assert(prefix.push(h)[prefix.len() as int] == h);
            }
            assert forall|g: BlockHash| r@.contains(g) <==> prefix.push(h).to_set().contains(g) by {
                assert(prefix.to_set().contains(g) <==> prefix.contains(g));
                assert(prefix.push(h).to_set().contains(g) <==> prefix.push(h).contains(g));
            }
            assert(r@ =~= hashes@.take(i + 1).to_set());
            i = i + 1;
        }
        assert(hashes@.take(hashes@.len() as int) == hashes@);
        r
    }

    /// Whether `h` is in the set.
    pub fn contains(&self, h: &BlockHash) -> (r: bool)
        ensures
            r == self@.contains(*h),
    {
        match self.buckets.get(&h.w0) {
            Some(bucket) => bucket_contains(bucket, h),
            None => false,
        }
    }

    /// Adds `h` to the set; adding a hash already there changes nothing.
    pub fn insert(&mut self, h: BlockHash)
        ensures
            final(self)@ == old(self)@.insert(h),
    {
        proof {
            use_type_invariant(&*self);
        }
        let key = h.w0;
        let mut buckets: HashMap<u64, Vec<BlockHash>> = HashMap::new();
        std::mem::swap(&mut buckets, &mut self.buckets);
        let ghost old_buckets = buckets@;
        let mut bucket = match buckets.remove(&key) {
            Some(b) => b,
            None => Vec::new(),
        };
        let ghost old_bucket = bucket@;
        if !bucket_contains(&bucket, &h) {
            bucket.push(h);
            assert(bucket@[bucket@.len() - 1] == h);
        }
        assert(bucket@.contains(h));
        assert forall|g: BlockHash| bucket@.contains(g) <==> (old_bucket.contains(g) || g == h) by {
            if old_bucket.contains(g) {
                let j = choose|j: int| 0 <= j < old_bucket.len() && old_bucket[j] == g;
                assert(bucket@[j] == g);
            }
        }
        buckets.insert(key, bucket);
        self.buckets = buckets;
        assert(self@ =~= old(self)@.insert(h));
    }
}

} // verus!
