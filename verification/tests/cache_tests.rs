//! Behaviour of the least-recently-used bid cache on concrete values.

use optimistic_relay::cache::BidCache;
use optimistic_relay::types::BlockBid;

fn mk_hash(tag: u8) -> Vec<u8> {
    let mut h = vec![0u8; 32];
    h[0] = tag;
    h
}

fn mk_bid(tag: u8) -> BlockBid {
    BlockBid {
        block_hash: mk_hash(tag),
        value_wei: tag as u128 * 1000,
        payload_text: Some(vec![tag, 1, 2, 3]),
        payload_binary: vec![tag, 9, 9],
    }
}

#[test]
fn capacity_two_insert_three_evicts_first() {
    let mut cache = BidCache::new(2);
    cache.insert(mk_bid(1));
    cache.insert(mk_bid(2));
    cache.insert(mk_bid(3));
    assert!(cache.get(&mk_hash(1)).is_none());
    assert!(cache.get(&mk_hash(2)).is_some());
    assert!(cache.get(&mk_hash(3)).is_some());
}

#[test]
fn size_never_exceeds_capacity() {
    let mut cache = BidCache::new(3);
    for tag in 1..=10u8 {
        cache.insert(mk_bid(tag));
    }
    // Only the last three inserted hashes survive.
    for tag in 1..=7u8 {
        assert!(cache.get(&mk_hash(tag)).is_none());
    }
    for tag in 8..=10u8 {
        assert!(cache.get(&mk_hash(tag)).is_some());
    }
}

#[test]
fn get_returns_stored_bid() {
    let mut cache = BidCache::new(4);
    cache.insert(mk_bid(7));
    let got = cache.get(&mk_hash(7)).expect("inserted entry must be present");
    assert_eq!(got.block_hash, mk_hash(7));
    assert_eq!(got.value_wei, 7000);
    assert_eq!(got.payload_text, Some(vec![7u8, 1, 2, 3]));
    assert_eq!(got.payload_binary, vec![7u8, 9, 9]);
}

#[test]
fn get_absent_returns_none() {
    let mut cache = BidCache::new(2);
    cache.insert(mk_bid(1));
    assert!(cache.get(&mk_hash(2)).is_none());
}

#[test]
fn touch_protects_entry_from_eviction() {
    let mut cache = BidCache::new(2);
    cache.insert(mk_bid(1));
    cache.insert(mk_bid(2));
    // Touch the older entry, then overflow the cache: the untouched entry
    // is the one evicted.
    assert!(cache.get(&mk_hash(1)).is_some());
    cache.insert(mk_bid(3));
    assert!(cache.get(&mk_hash(1)).is_some());
    assert!(cache.get(&mk_hash(2)).is_none());
    assert!(cache.get(&mk_hash(3)).is_some());
}

#[test]
fn repeated_hash_overwrites_and_refreshes() {
    let mut cache = BidCache::new(2);
    cache.insert(mk_bid(1));
    cache.insert(mk_bid(2));
    // Re-insert hash 1 with a new payload: refreshed, not duplicated.
    let replacement = BlockBid {
        block_hash: mk_hash(1),
        value_wei: 42,
        payload_text: None,
        payload_binary: vec![42],
    };
    cache.insert(replacement);
    // Hash 1 is now the most recent, so overflowing evicts hash 2.
    cache.insert(mk_bid(3));
    let got = cache.get(&mk_hash(1)).expect("refreshed entry must survive");
    assert_eq!(got.value_wei, 42);
    assert_eq!(got.payload_text, None);
    assert!(cache.get(&mk_hash(2)).is_none());
}

#[test]
fn capacity_one_keeps_latest() {
    let mut cache = BidCache::new(1);
    cache.insert(mk_bid(1));
    cache.insert(mk_bid(2));
    assert!(cache.get(&mk_hash(1)).is_none());
    assert!(cache.get(&mk_hash(2)).is_some());
}
