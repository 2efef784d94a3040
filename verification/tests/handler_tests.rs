//! The request handler's outcomes, counters and status codes on concrete
//! requests.

use optimistic_relay::cache::BidCache;
use optimistic_relay::handler::handle_request;
use optimistic_relay::handler::resolve_request;
use optimistic_relay::handler::screen_request;
use optimistic_relay::handler::ScreenOutcome;
use optimistic_relay::handler::SignatureVerifier;
use optimistic_relay::metrics::Metrics;
use optimistic_relay::text::encode_text;
use optimistic_relay::binary::encode_binary;
use optimistic_relay::types::AuthorizedPubkeySet;
use optimistic_relay::types::BlockBid;
use optimistic_relay::types::Encoding;
use optimistic_relay::types::RequestOutcome;
use optimistic_relay::types::SignedPayloadRequest;

struct AcceptAll;

impl SignatureVerifier for AcceptAll {
    fn verify(&self, _request: &SignedPayloadRequest, _domain: &Vec<u8>) -> bool {
        true
    }
}

struct RejectAll;

impl SignatureVerifier for RejectAll {
    fn verify(&self, _request: &SignedPayloadRequest, _domain: &Vec<u8>) -> bool {
        false
    }
}

/// A verifier that must never be consulted.
struct MustNotVerify;

impl SignatureVerifier for MustNotVerify {
    fn verify(&self, _request: &SignedPayloadRequest, _domain: &Vec<u8>) -> bool {
        panic!("signature verification must not be reached");
    }
}

fn mk_hash(tag: u8) -> Vec<u8> {
    let mut h = vec![0u8; 32];
    h[0] = tag;
    h
}

fn mk_pubkey(tag: u8) -> Vec<u8> {
    let mut k = vec![0u8; 48];
    k[0] = tag;
    k
}

fn mk_request(hash_tag: u8, key_tag: u8) -> SignedPayloadRequest {
    SignedPayloadRequest {
        request_ts: 1_700_000_000_000,
        relay_public_key: mk_pubkey(key_tag),
        block_hash: mk_hash(hash_tag),
        signature: vec![0x11; 96],
    }
}

fn mk_bid(tag: u8) -> BlockBid {
    BlockBid {
        block_hash: mk_hash(tag),
        value_wei: 5,
        payload_text: Some(vec![tag, 20, 21]),
        payload_binary: vec![tag, 30, 31],
    }
}

fn domain() -> Vec<u8> {
    vec![0x07; 32]
}

fn text_ct() -> Vec<u8> {
    b"application/json".to_vec()
}

fn binary_ct() -> Vec<u8> {
    b"application/octet-stream".to_vec()
}

const NOW_MS: u64 = 1_700_000_000_500;

#[test]
fn unsupported_content_type_is_bad_request() {
    let keys = AuthorizedPubkeySet::new(vec![mk_pubkey(1)]);
    let mut cache = BidCache::new(4);
    let mut metrics = Metrics::new();
    let body = encode_text(&mk_request(2, 1));
    let outcome = handle_request(
        &MustNotVerify,
        &domain(),
        &b"text/plain".to_vec(),
        &body,
        &keys,
        NOW_MS,
        &mut cache,
        &mut metrics,
    );
    assert!(matches!(outcome, RequestOutcome::BadRequest));
    assert_eq!(outcome.status_code(), 400);
    assert_eq!(metrics.requests_total, 1);
    assert_eq!(metrics.bad_requests_total, 1);
    assert_eq!(metrics.unknown_pubkey_total, 0);
    // The body was never parsed, so no request latency was observed.
    assert_eq!(metrics.relay_request_latency_count, 0);
}

#[test]
fn malformed_body_is_bad_request() {
    let keys = AuthorizedPubkeySet::new(vec![mk_pubkey(1)]);
    let mut cache = BidCache::new(4);
    let mut metrics = Metrics::new();
    let outcome = handle_request(
        &MustNotVerify,
        &domain(),
        &text_ct(),
        &b"{not the canonical document}".to_vec(),
        &keys,
        NOW_MS,
        &mut cache,
        &mut metrics,
    );
    assert!(matches!(outcome, RequestOutcome::BadRequest));
    assert_eq!(metrics.bad_requests_total, 1);
}

#[test]
fn unknown_pubkey_is_unauthorized_without_verification() {
    let keys = AuthorizedPubkeySet::new(vec![mk_pubkey(1)]);
    let mut cache = BidCache::new(4);
    cache.insert(mk_bid(2));
    let mut metrics = Metrics::new();
    // Structurally well-formed request, key 9 not in the set; the verifier
    // would panic if signature verification were attempted.
    let body = encode_text(&mk_request(2, 9));
    let outcome = handle_request(
        &MustNotVerify,
        &domain(),
        &text_ct(),
        &body,
        &keys,
        NOW_MS,
        &mut cache,
        &mut metrics,
    );
    assert!(matches!(outcome, RequestOutcome::UnknownPubkey));
    assert_eq!(outcome.status_code(), 401);
    assert_eq!(metrics.unknown_pubkey_total, 1);
    assert_eq!(metrics.invalid_signature_total, 0);
    assert_eq!(metrics.block_not_found_total, 0);
}

#[test]
fn screening_alone_never_touches_a_cache() {
    // The pre-verification phase takes no cache at all; a rejected key
    // leaves nothing but counters behind.
    let keys = AuthorizedPubkeySet::new(vec![mk_pubkey(1)]);
    let mut metrics = Metrics::new();
    let body = encode_binary(&mk_request(2, 9));
    let screened = screen_request(&binary_ct(), &body, &keys, NOW_MS, &mut metrics);
    assert!(matches!(
        screened,
        ScreenOutcome::Rejected(RequestOutcome::UnknownPubkey)
    ));
    assert_eq!(metrics.unknown_pubkey_total, 1);
}

#[test]
fn invalid_signature_is_unauthorized() {
    let keys = AuthorizedPubkeySet::new(vec![mk_pubkey(1)]);
    let mut cache = BidCache::new(4);
    cache.insert(mk_bid(2));
    let mut metrics = Metrics::new();
    let body = encode_text(&mk_request(2, 1));
    let outcome = handle_request(
        &RejectAll,
        &domain(),
        &text_ct(),
        &body,
        &keys,
        NOW_MS,
        &mut cache,
        &mut metrics,
    );
    assert!(matches!(outcome, RequestOutcome::InvalidSignature));
    assert_eq!(outcome.status_code(), 401);
    assert_eq!(metrics.invalid_signature_total, 1);
    assert_eq!(metrics.unknown_pubkey_total, 0);
    // The cache was not consulted: the entry's recency is unchanged.
    assert_eq!(metrics.block_not_found_total, 0);
}

#[test]
fn absent_hash_is_not_found() {
    let keys = AuthorizedPubkeySet::new(vec![mk_pubkey(1)]);
    let mut cache = BidCache::new(4);
    let mut metrics = Metrics::new();
    let body = encode_text(&mk_request(3, 1));
    let outcome = handle_request(
        &AcceptAll,
        &domain(),
        &text_ct(),
        &body,
        &keys,
        NOW_MS,
        &mut cache,
        &mut metrics,
    );
    assert!(matches!(outcome, RequestOutcome::NotFound));
    assert_eq!(outcome.status_code(), 404);
    assert_eq!(metrics.block_not_found_total, 1);
    // The authorization checks all passed.
    assert_eq!(metrics.unknown_pubkey_total, 0);
    assert_eq!(metrics.invalid_signature_total, 0);
}

#[test]
fn success_text_serves_stored_text_payload() {
    let keys = AuthorizedPubkeySet::new(vec![mk_pubkey(1)]);
    let mut cache = BidCache::new(4);
    cache.insert(mk_bid(2));
    let mut metrics = Metrics::new();
    let body = encode_text(&mk_request(2, 1));
    let outcome = handle_request(
        &AcceptAll,
        &domain(),
        &text_ct(),
        &body,
        &keys,
        NOW_MS,
        &mut cache,
        &mut metrics,
    );
    match outcome {
        RequestOutcome::Success { encoding, body } => {
            assert_eq!(encoding, Encoding::Text);
            assert_eq!(body, vec![2u8, 20, 21]);
        }
        other => panic!("expected success, got status {}", other.status_code()),
    }
    assert_eq!(metrics.requests_total, 1);
    assert_eq!(metrics.relay_request_latency_count, 1);
    assert_eq!(metrics.relay_request_latency_sum_ms, 500);
}

#[test]
fn success_binary_serves_stored_binary_payload() {
    let keys = AuthorizedPubkeySet::new(vec![mk_pubkey(1)]);
    let mut cache = BidCache::new(4);
    cache.insert(mk_bid(2));
    let mut metrics = Metrics::new();
    let body = encode_binary(&mk_request(2, 1));
    let outcome = handle_request(
        &AcceptAll,
        &domain(),
        &binary_ct(),
        &body,
        &keys,
        NOW_MS,
        &mut cache,
        &mut metrics,
    );
    match outcome {
        RequestOutcome::Success { encoding, body } => {
            assert_eq!(encoding, Encoding::Binary);
            assert_eq!(body, vec![2u8, 30, 31]);
        }
        other => panic!("expected success, got status {}", other.status_code()),
    }
}

#[test]
fn missing_text_representation_is_internal_error() {
    let keys = AuthorizedPubkeySet::new(vec![mk_pubkey(1)]);
    let mut cache = BidCache::new(4);
    cache.insert(BlockBid {
        block_hash: mk_hash(2),
        value_wei: 5,
        payload_text: None,
        payload_binary: vec![2, 30, 31],
    });
    let mut metrics = Metrics::new();
    let body = encode_text(&mk_request(2, 1));
    let outcome = handle_request(
        &AcceptAll,
        &domain(),
        &text_ct(),
        &body,
        &keys,
        NOW_MS,
        &mut cache,
        &mut metrics,
    );
    assert!(matches!(outcome, RequestOutcome::EncodeFailure));
    assert_eq!(outcome.status_code(), 500);
}

#[test]
fn successful_lookup_refreshes_recency() {
    let keys = AuthorizedPubkeySet::new(vec![mk_pubkey(1)]);
    let mut cache = BidCache::new(2);
    cache.insert(mk_bid(2));
    cache.insert(mk_bid(3));
    let mut metrics = Metrics::new();
    // Serve the older entry, then overflow the cache: the served entry
    // survives, the unserved one is evicted.
    let body = encode_binary(&mk_request(2, 1));
    let outcome = handle_request(
        &AcceptAll,
        &domain(),
        &binary_ct(),
        &body,
        &keys,
        NOW_MS,
        &mut cache,
        &mut metrics,
    );
    assert!(matches!(outcome, RequestOutcome::Success { .. }));
    cache.insert(mk_bid(4));
    assert!(cache.get(&mk_hash(2)).is_some());
    assert!(cache.get(&mk_hash(3)).is_none());
}

#[test]
fn future_timestamp_skips_latency_observation() {
    let keys = AuthorizedPubkeySet::new(vec![mk_pubkey(1)]);
    let mut metrics = Metrics::new();
    let mut req = mk_request(2, 1);
    req.request_ts = NOW_MS + 1;
    let body = encode_binary(&req);
    let _ = screen_request(&binary_ct(), &body, &keys, NOW_MS, &mut metrics);
    assert_eq!(metrics.relay_request_latency_count, 0);
    assert_eq!(metrics.relay_request_latency_sum_ms, 0);
}

#[test]
fn every_request_counts_toward_total_and_response_latency() {
    let keys = AuthorizedPubkeySet::new(Vec::new());
    let mut cache = BidCache::new(2);
    let mut metrics = Metrics::new();
    for _ in 0..3 {
        let outcome = handle_request(
            &AcceptAll,
            &domain(),
            &b"text/plain".to_vec(),
            &Vec::new(),
            &keys,
            NOW_MS,
            &mut cache,
            &mut metrics,
        );
        assert!(matches!(outcome, RequestOutcome::BadRequest));
        metrics.record_response_latency(2);
    }
    assert_eq!(metrics.requests_total, 3);
    assert_eq!(metrics.response_latency_count, 3);
    assert_eq!(metrics.response_latency_sum_ms, 6);
}

#[test]
fn resolve_with_rejected_signature_ignores_cache() {
    let mut cache = BidCache::new(2);
    cache.insert(mk_bid(2));
    let mut metrics = Metrics::new();
    let req = mk_request(2, 1);
    let outcome = resolve_request(&req, Encoding::Binary, false, &mut cache, &mut metrics);
    assert!(matches!(outcome, RequestOutcome::InvalidSignature));
    assert_eq!(metrics.invalid_signature_total, 1);
}

#[test]
fn counters_saturate_at_the_largest_value() {
    let mut metrics = Metrics::new();
    metrics.requests_total = u64::MAX;
    metrics.record_request();
    assert_eq!(metrics.requests_total, u64::MAX);
    metrics.ingest_lagged_total = u64::MAX - 1;
    metrics.record_lag(5);
    assert_eq!(metrics.ingest_lagged_total, u64::MAX);
    metrics.relay_request_latency_sum_ms = u64::MAX - 10;
    metrics.record_relay_latency(100, 0);
    assert_eq!(metrics.relay_request_latency_sum_ms, u64::MAX);
}
