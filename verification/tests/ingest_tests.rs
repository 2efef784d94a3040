//! The ingestion step on concrete event sequences: lag reports and stream
//! closure are absorbed, later bids still arrive in the cache.

use optimistic_relay::cache::BidCache;
use optimistic_relay::ingest::ingest_event;
use optimistic_relay::ingest::StreamEvent;
use optimistic_relay::metrics::Metrics;
use optimistic_relay::types::BlockBid;

fn mk_hash(tag: u8) -> Vec<u8> {
    let mut h = vec![0u8; 32];
    h[0] = tag;
    h
}

fn mk_bid(tag: u8) -> BlockBid {
    BlockBid {
        block_hash: mk_hash(tag),
        value_wei: 1,
        payload_text: None,
        payload_binary: vec![tag],
    }
}

#[test]
fn lag_is_counted_and_delivery_resumes() {
    let mut cache = BidCache::new(8);
    let mut metrics = Metrics::new();
    ingest_event(StreamEvent::Bid(mk_bid(1)), &mut cache, &mut metrics);
    // The stream reports three dropped items, then resumes normally.
    ingest_event(StreamEvent::Lagged(3), &mut cache, &mut metrics);
    ingest_event(StreamEvent::Bid(mk_bid(2)), &mut cache, &mut metrics);
    ingest_event(StreamEvent::Bid(mk_bid(3)), &mut cache, &mut metrics);
    assert_eq!(metrics.ingest_lagged_total, 3);
    assert!(cache.get(&mk_hash(1)).is_some());
    assert!(cache.get(&mk_hash(2)).is_some());
    assert!(cache.get(&mk_hash(3)).is_some());
}

#[test]
fn lag_reports_accumulate() {
    let mut cache = BidCache::new(2);
    let mut metrics = Metrics::new();
    ingest_event(StreamEvent::Lagged(2), &mut cache, &mut metrics);
    ingest_event(StreamEvent::Lagged(5), &mut cache, &mut metrics);
    assert_eq!(metrics.ingest_lagged_total, 7);
}

#[test]
fn closed_stream_changes_nothing() {
    let mut cache = BidCache::new(2);
    let mut metrics = Metrics::new();
    ingest_event(StreamEvent::Bid(mk_bid(1)), &mut cache, &mut metrics);
    ingest_event(StreamEvent::Closed, &mut cache, &mut metrics);
    assert_eq!(metrics, Metrics::new());
    assert!(cache.get(&mk_hash(1)).is_some());
}

#[test]
fn ingested_bids_evict_least_recent_on_overflow() {
    let mut cache = BidCache::new(2);
    let mut metrics = Metrics::new();
    ingest_event(StreamEvent::Bid(mk_bid(1)), &mut cache, &mut metrics);
    ingest_event(StreamEvent::Bid(mk_bid(2)), &mut cache, &mut metrics);
    ingest_event(StreamEvent::Bid(mk_bid(3)), &mut cache, &mut metrics);
    assert!(cache.get(&mk_hash(1)).is_none());
    assert!(cache.get(&mk_hash(2)).is_some());
    assert!(cache.get(&mk_hash(3)).is_some());
}
