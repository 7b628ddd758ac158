use chain_rules::{BlockHash, BlockRules, DigestSet, LookupResult};

fn h(n: u64) -> BlockHash {
    BlockHash::new(n, 0, 0, 0)
}

#[test]
fn empty_registry() {
    let rules = BlockRules::new(None, None);
    assert_eq!(rules.lookup(5, &h(1)), LookupResult::NotSpecial);
    assert_eq!(rules.lookup_hash(&h(1)), LookupResult::NotSpecial);
}

#[test]
fn empty_lists_match_absent_lists() {
    let rules = BlockRules::new(Some(vec![]), Some(vec![]));
    assert_eq!(rules.lookup(0, &h(1)), LookupResult::NotSpecial);
    assert_eq!(rules.lookup(u64::MAX, &h(2)), LookupResult::NotSpecial);
    assert_eq!(rules.lookup_hash(&h(3)), LookupResult::NotSpecial);
}

#[test]
fn bad_block() {
    let rules = BlockRules::new(None, Some(vec![h(1)]));
    assert_eq!(rules.lookup(7, &h(1)), LookupResult::KnownBad);
    assert_eq!(rules.lookup(7, &h(2)), LookupResult::NotSpecial);
    assert_eq!(rules.lookup_hash(&h(1)), LookupResult::KnownBad);
}

#[test]
fn fork_mismatch() {
    let canonical = h(100);
    let other = h(200);
    let rules = BlockRules::new(Some(vec![(10, canonical)]), None);
    assert_eq!(rules.lookup(10, &other), LookupResult::Expected(canonical));
    assert_eq!(rules.lookup(10, &canonical), LookupResult::NotSpecial);
    assert_eq!(rules.lookup(11, &other), LookupResult::NotSpecial);
}

#[test]
fn fork_precedence_over_bad() {
    let canonical = h(100);
    let other = h(200);
    let rules = BlockRules::new(Some(vec![(10, canonical)]), Some(vec![other]));
    assert_eq!(rules.lookup(10, &other), LookupResult::Expected(canonical));
    assert_eq!(rules.lookup(11, &other), LookupResult::KnownBad);
}

#[test]
fn fork_precedence_over_unfinalized() {
    let canonical = h(100);
    let other = h(200);
    let mut rules = BlockRules::new(Some(vec![(10, canonical)]), None);
    rules.mark_unfinalized(other);
    assert_eq!(rules.lookup(10, &other), LookupResult::Expected(canonical));
    assert_eq!(rules.lookup_hash(&other), LookupResult::KnownUnfinalized);
}

#[test]
fn runtime_unfinalized_marking() {
    let mut rules = BlockRules::new(None, None);
    assert_eq!(rules.lookup(3, &h(1)), LookupResult::NotSpecial);
    rules.mark_unfinalized(h(1));
    assert_eq!(rules.lookup(3, &h(1)), LookupResult::KnownUnfinalized);
    let result = rules.lookup_hash(&h(1));
    assert_eq!(result, LookupResult::KnownUnfinalized);
    assert!(result.is_unfinalized());
}

#[test]
fn bad_beats_unfinalized() {
    let mut rules = BlockRules::new(None, Some(vec![h(1)]));
    rules.mark_unfinalized(h(1));
    assert_eq!(rules.lookup_hash(&h(1)), LookupResult::KnownBad);
    assert_eq!(rules.lookup(4, &h(1)), LookupResult::KnownBad);
}

#[test]
fn canonical_bad_hash_is_bad() {
    let rules = BlockRules::new(Some(vec![(10, h(1))]), Some(vec![h(1)]));
    assert_eq!(rules.lookup(10, &h(1)), LookupResult::KnownBad);
}

#[test]
fn canonical_unfinalized_hash_is_unfinalized() {
    let mut rules = BlockRules::new(Some(vec![(10, h(1))]), None);
    rules.mark_unfinalized(h(1));
    assert_eq!(rules.lookup(10, &h(1)), LookupResult::KnownUnfinalized);
}

#[test]
fn marked_hash_stays_unfinalized_after_more_marks() {
    let mut rules = BlockRules::new(None, None);
    rules.mark_unfinalized(h(1));
    rules.mark_unfinalized(h(2));
    rules.mark_unfinalized(h(3));
    assert_eq!(rules.lookup_hash(&h(1)), LookupResult::KnownUnfinalized);
    assert_eq!(rules.lookup_hash(&h(2)), LookupResult::KnownUnfinalized);
    assert_eq!(rules.lookup_hash(&h(4)), LookupResult::NotSpecial);
}

#[test]
fn marking_twice_is_marking_once() {
    let mut once = BlockRules::new(Some(vec![(5, h(9))]), Some(vec![h(2)]));
    let mut twice = BlockRules::new(Some(vec![(5, h(9))]), Some(vec![h(2)]));
    once.mark_unfinalized(h(1));
    twice.mark_unfinalized(h(1));
    twice.mark_unfinalized(h(1));
    for n in [4u64, 5, 6] {
        for x in [h(1), h(2), h(3), h(9)] {
            assert_eq!(once.lookup(n, &x), twice.lookup(n, &x));
            assert_eq!(once.lookup_hash(&x), twice.lookup_hash(&x));
        }
    }
}

#[test]
fn is_unfinalized_only_for_known_unfinalized() {
    assert!(LookupResult::KnownUnfinalized.is_unfinalized());
    assert!(!LookupResult::NotSpecial.is_unfinalized());
    assert!(!LookupResult::KnownBad.is_unfinalized());
    assert!(!LookupResult::Expected(h(1)).is_unfinalized());
}

#[test]
fn repeated_height_last_pair_wins() {
    let rules = BlockRules::new(Some(vec![(10, h(1)), (10, h(2))]), None);
    assert_eq!(rules.lookup(10, &h(1)), LookupResult::Expected(h(2)));
    assert_eq!(rules.lookup(10, &h(2)), LookupResult::NotSpecial);
}

#[test]
fn no_forks_never_expected() {
    let mut rules = BlockRules::new(None, Some(vec![h(1)]));
    rules.mark_unfinalized(h(2));
    for n in [0u64, 1, 10, u64::MAX] {
        assert_eq!(rules.lookup(n, &h(1)), LookupResult::KnownBad);
        assert_eq!(rules.lookup(n, &h(2)), LookupResult::KnownUnfinalized);
        assert_eq!(rules.lookup(n, &h(3)), LookupResult::NotSpecial);
    }
}

#[test]
fn no_bad_never_bad() {
    let mut rules = BlockRules::new(Some(vec![(1, h(1))]), None);
    rules.mark_unfinalized(h(1));
    assert_eq!(rules.lookup(1, &h(1)), LookupResult::KnownUnfinalized);
    assert_eq!(rules.lookup(1, &h(2)), LookupResult::Expected(h(1)));
    assert_eq!(rules.lookup(2, &h(2)), LookupResult::NotSpecial);
}

#[test]
fn hashes_sharing_leading_word_are_distinct() {
    let a = BlockHash::new(7, 1, 2, 3);
    let b = BlockHash::new(7, 1, 2, 4);
    let rules = BlockRules::new(None, Some(vec![a]));
    assert_eq!(rules.lookup_hash(&a), LookupResult::KnownBad);
    assert_eq!(rules.lookup_hash(&b), LookupResult::NotSpecial);
}

#[test]
fn digest_set_insert_and_contains() {
    let mut set = DigestSet::new();
    assert!(!set.contains(&h(1)));
    set.insert(h(1));
    set.insert(BlockHash::new(1, 0, 0, 5));
    set.insert(h(1));
    assert!(set.contains(&h(1)));
    assert!(set.contains(&BlockHash::new(1, 0, 0, 5)));
    assert!(!set.contains(&BlockHash::new(1, 0, 0, 6)));
    let from = DigestSet::from_hashes(vec![h(3), h(4), h(3)]);
    assert!(from.contains(&h(3)));
    assert!(from.contains(&h(4)));
    assert!(!from.contains(&h(5)));
}

#[test]
fn bytes_round_trip() {
    let hash = BlockHash::new(0x0102030405060708, 0, u64::MAX, 42);
    let bytes = hash.to_bytes();
    assert_eq!(bytes.len(), 32);
    assert_eq!(&bytes[0..8], &[1, 2, 3, 4, 5, 6, 7, 8]);
    assert_eq!(&bytes[16..24], &[0xff; 8]);
    assert_eq!(bytes[31], 42);
    assert_eq!(BlockHash::from_slice(&bytes), Some(hash));
}

#[test]
fn from_slice_reads_big_endian() {
    let mut bytes = [0u8; 32];
    bytes[7] = 1;
    bytes[8] = 0x80;
    bytes[31] = 0xff;
    assert_eq!(BlockHash::from_slice(&bytes), Some(BlockHash::new(1, 0x8000000000000000, 0, 0xff)));
}

#[test]
fn from_slice_rejects_other_lengths() {
    assert_eq!(BlockHash::from_slice(&[0u8; 31]), None);
    assert_eq!(BlockHash::from_slice(&[0u8; 33]), None);
    assert_eq!(BlockHash::from_slice(&[]), None);
}
