//! The request handler: the per-request state machine that gates the
//! content type, decodes the body, observes request latency, authorizes the
//! caller (known key first, then signature), looks the block hash up in the
//! cache and answers in the encoding the request used. It is split where
//! the external signature verifier is consulted: `screen_request` runs
//! every step before verification, `resolve_request` every step after it,
//! and `handle_request` drives both around a caller-supplied verifier.

use vstd::prelude::*;
use crate::binary::binary_decoding;
use crate::binary::decode_binary;
use crate::cache::bid_at;
use crate::cache::has_hash;
use crate::cache::lru_touch;
use crate::cache::BidCache;
use crate::types::BidView;
use crate::metrics::bump;
use crate::metrics::Metrics;
use crate::text::decode_text;
use crate::text::text_decoding;
use crate::types::encoding_of_content_type;
use crate::types::parse_content_type;
use crate::types::AuthorizedPubkeySet;
use crate::types::Encoding;
use crate::types::OutcomeView;
use crate::types::RequestOutcome;
use crate::types::RequestView;
use crate::types::SignedPayloadRequest;

verus! {

/// The request a body spells in the given encoding, if any.
pub open spec fn request_decoding(enc: Encoding, body: Seq<u8>) -> Option<RequestView> {
    match enc {
        Encoding::Text => text_decoding(body),
        Encoding::Binary => binary_decoding(body),
    }
}

/// Model of what screening decides: either a rejection reached before the
/// signature is ever consulted, or a decoded request from a known key that
/// now awaits signature verification.
pub ghost enum Screened {
    /// Rejected before signature verification: an unsupported content type
    /// or malformed body, or an unknown public key.
    Rejected(OutcomeView),
    /// Decoded from a known key; the signature remains to be verified.
    AwaitingSignature(RequestView, Encoding),
}

/// What screening decides for a content type, body and authorized-key set:
/// unsupported content type or malformed body is a bad request; a decoded
/// request from a key outside the set is an unknown-key rejection; anything
/// else awaits signature verification. The cache is not consulted.
pub open spec fn screen_spec(ct: Seq<u8>, body: Seq<u8>, keys: Seq<Seq<u8>>) -> Screened {
    match encoding_of_content_type(ct) {
        None => Screened::Rejected(OutcomeView::BadRequest),
        Some(enc) => match request_decoding(enc, body) {
            None => Screened::Rejected(OutcomeView::BadRequest),
            Some(v) => if !keys.contains(v.relay_public_key) {
                Screened::Rejected(OutcomeView::UnknownPubkey)
            } else {
                Screened::AwaitingSignature(v, enc)
            },
        },
    }
}

/// The metrics after screening: one request counted, then exactly the
/// counter of the branch taken; request latency is observed on every body
/// that decodes.
pub open spec fn screen_metrics(
    m: Metrics,
    ct: Seq<u8>,
    body: Seq<u8>,
    keys: Seq<Seq<u8>>,
    now_ms: u64,
) -> Metrics {
    let m1 = Metrics::with_request(m);
    match encoding_of_content_type(ct) {
        None => Metrics::with_bad_request(m1),
        Some(enc) => match request_decoding(enc, body) {
            None => Metrics::with_bad_request(m1),
            Some(v) => {
                let m2 = Metrics::with_relay_latency(m1, now_ms, v.request_ts);
                if !keys.contains(v.relay_public_key) {
                    Metrics::with_unknown_pubkey(m2)
                } else {
                    m2
                }
            },
        },
    }
}

/// What screening hands on: a rejection, or a request awaiting signature
/// verification together with the encoding the answer must use.
pub enum ScreenOutcome {
    /// Rejected before signature verification.
    Rejected(RequestOutcome),
    /// Decoded from a known key; the signature remains to be verified.
    AwaitingSignature(SignedPayloadRequest, Encoding),
}

impl View for ScreenOutcome {
    type V = Screened;

    open spec fn view(&self) -> Screened {
        match self {
            ScreenOutcome::Rejected(o) => Screened::Rejected(o@),
            ScreenOutcome::AwaitingSignature(req, enc) => Screened::AwaitingSignature(req@, *enc),
        }
    }
}

/// Runs every step of the handler that precedes signature verification:
/// content-type gate, decode, latency observation and the known-key check,
/// counting outcomes as it goes. `now_ms` is the receive time in
/// milliseconds since the epoch.
pub fn screen_request(
    content_type: &Vec<u8>,
    body: &Vec<u8>,
    keys: &AuthorizedPubkeySet,
    now_ms: u64,
    metrics: &mut Metrics,
) -> (r: ScreenOutcome)
    ensures
        r@ == screen_spec(content_type@, body@, keys@),
        *final(metrics) == screen_metrics(*old(metrics), content_type@, body@, keys@, now_ms),
        r@ matches Screened::AwaitingSignature(v, _) ==> v.wf(),
{
    metrics.record_request();
    let encoding = match parse_content_type(content_type) {
        Some(enc) => enc,
        None => {
            metrics.record_bad_request();
            return ScreenOutcome::Rejected(RequestOutcome::BadRequest);
        },
    };
    let request = match (match encoding {
        Encoding::Text => decode_text(body),
        Encoding::Binary => decode_binary(body),
    }) {
        Some(req) => req,
        None => {
            metrics.record_bad_request();
            return ScreenOutcome::Rejected(RequestOutcome::BadRequest);
        },
    };
    metrics.record_relay_latency(now_ms, request.request_ts);
    if !keys.contains(&request.relay_public_key) {
        metrics.record_unknown_pubkey();
        return ScreenOutcome::Rejected(RequestOutcome::UnknownPubkey);
    }
    ScreenOutcome::AwaitingSignature(request, encoding)
}

/// Model of what resolution yields: the outcome and the cache state after
/// it.
pub ghost struct Resolved {
    /// The outcome handed to the transport layer.
    pub outcome: OutcomeView,
    /// The cache after the request: touched on a hit, unchanged otherwise.
    pub cache: Seq<BidView>,
}

/// What resolution decides once the verifier's verdict `sig_ok` is in
/// hand: a rejected signature is unauthorized; an absent hash is not
/// found; a hit refreshes the entry's recency and answers with the stored
/// payload in the requested encoding — or an internal failure when the
/// bid has no representation in the text encoding.
pub open spec fn resolve_spec(
    cache: Seq<BidView>,
    v: RequestView,
    enc: Encoding,
    sig_ok: bool,
) -> Resolved {
    if !sig_ok {
        Resolved { outcome: OutcomeView::InvalidSignature, cache }
    } else if !has_hash(cache, v.block_hash) {
        Resolved { outcome: OutcomeView::NotFound, cache }
    } else {
        let b = bid_at(cache, v.block_hash);
        let touched = lru_touch(cache, v.block_hash);
        match enc {
            Encoding::Binary => Resolved {
                outcome: OutcomeView::Success { encoding: enc, body: b.payload_binary },
                cache: touched,
            },
            Encoding::Text => match b.payload_text {
                Some(t) => Resolved {
                    outcome: OutcomeView::Success { encoding: enc, body: t },
                    cache: touched,
                },
                None => Resolved { outcome: OutcomeView::EncodeFailure, cache: touched },
            },
        }
    }
}

/// The metrics after resolution: exactly the counter of the branch taken.
pub open spec fn resolve_metrics(
    m: Metrics,
    cache: Seq<BidView>,
    v: RequestView,
    sig_ok: bool,
) -> Metrics {
    if !sig_ok {
        Metrics::with_invalid_signature(m)
    } else if !has_hash(cache, v.block_hash) {
        Metrics::with_not_found(m)
    } else {
        m
    }
}

/// Runs every step of the handler that follows signature verification,
/// taking the verifier's verdict as an argument: authorization by
/// signature, cache lookup with recency refresh, and the answer in the
/// encoding the request used.
pub fn resolve_request(
    req: &SignedPayloadRequest,
    encoding: Encoding,
    sig_ok: bool,
    cache: &mut BidCache,
    metrics: &mut Metrics,
) -> (r: RequestOutcome)
    requires
        old(cache).wf(),
    ensures
        final(cache).wf(),
        final(cache).capacity_spec() == old(cache).capacity_spec(),
        r@ == resolve_spec(old(cache)@, req@, encoding, sig_ok).outcome,
        final(cache)@ == resolve_spec(old(cache)@, req@, encoding, sig_ok).cache,
        *final(metrics) == resolve_metrics(*old(metrics), old(cache)@, req@, sig_ok),
{
    if !sig_ok {
        metrics.record_invalid_signature();
        return RequestOutcome::InvalidSignature;
    }
    match cache.get(&req.block_hash) {
        None => {
            metrics.record_not_found();
            RequestOutcome::NotFound
        },
        Some(bid) => match encoding {
            Encoding::Binary => RequestOutcome::Success {
                encoding,
                body: bid.payload_binary,
            },
            Encoding::Text => match bid.payload_text {
                Some(t) => RequestOutcome::Success { encoding, body: t },
                None => RequestOutcome::EncodeFailure,
            },
        },
    }
}

/// The signature verifier, an external collaborator fixed per deployment:
/// given a decoded request and the server's domain value it accepts or
/// rejects the request's signature over its signed fields. Implementations
/// are supplied by the embedding process; the handler promises only what
/// holds for every verdict.
pub trait SignatureVerifier {
    /// Whether `request.signature` signs the request's timestamp, public
    /// key and block hash under `domain`. Must reject, not fail, on any
    /// malformed input.
    fn verify(&self, request: &SignedPayloadRequest, domain: &Vec<u8>) -> bool;
}

/// Serves one request end to end: screening, then — only for a decoded
/// request from a known key — signature verification and resolution. The
/// contract pins the outcome, the cache and the metrics for each screening
/// result, whichever verdict the verifier returns.
pub fn handle_request<V: SignatureVerifier>(
    verifier: &V,
    domain: &Vec<u8>,
    content_type: &Vec<u8>,
    body: &Vec<u8>,
    keys: &AuthorizedPubkeySet,
    now_ms: u64,
    cache: &mut BidCache,
    metrics: &mut Metrics,
) -> (r: RequestOutcome)
    requires
        old(cache).wf(),
    ensures
        final(cache).wf(),
        final(cache).capacity_spec() == old(cache).capacity_spec(),
        match screen_spec(content_type@, body@, keys@) {
            Screened::Rejected(o) => {
                &&& r@ == o
                &&& final(cache)@ == old(cache)@
                &&& *final(metrics) == screen_metrics(
                    *old(metrics),
                    content_type@,
                    body@,
                    keys@,
                    now_ms,
                )
            },
            Screened::AwaitingSignature(v, enc) => {
                ||| {
                    &&& r@ == resolve_spec(old(cache)@, v, enc, true).outcome
                    &&& final(cache)@ == resolve_spec(old(cache)@, v, enc, true).cache
                    &&& *final(metrics) == resolve_metrics(
                        screen_metrics(*old(metrics), content_type@, body@, keys@, now_ms),
                        old(cache)@,
                        v,
                        true,
                    )
                }
                ||| {
                    &&& r@ == resolve_spec(old(cache)@, v, enc, false).outcome
                    &&& final(cache)@ == resolve_spec(old(cache)@, v, enc, false).cache
                    &&& *final(metrics) == resolve_metrics(
                        screen_metrics(*old(metrics), content_type@, body@, keys@, now_ms),
                        old(cache)@,
                        v,
                        false,
                    )
                }
            },
        },
{
    match screen_request(content_type, body, keys, now_ms, metrics) {
        ScreenOutcome::Rejected(o) => o,
        ScreenOutcome::AwaitingSignature(request, encoding) => {
            let sig_ok = verifier.verify(&request, domain);
            resolve_request(&request, encoding, sig_ok, cache, metrics)
        },
    }
}

/// A public key outside the authorized set is always rejected as
/// unauthorized with the unknown-key counter advanced, whatever bytes
/// stand in the signature field and for every cache state — the request
/// never reaches signature verification or the cache.
pub proof fn lemma_unknown_key_always_rejected(
    ct: Seq<u8>,
    body: Seq<u8>,
    keys: Seq<Seq<u8>>,
    m: Metrics,
    now_ms: u64,
)
    requires
        match encoding_of_content_type(ct) {
            Some(enc) => match request_decoding(enc, body) {
                Some(v) => !keys.contains(v.relay_public_key),
                None => false,
            },
            None => false,
        },
    ensures
        screen_spec(ct, body, keys) == Screened::Rejected(OutcomeView::UnknownPubkey),
        screen_metrics(m, ct, body, keys, now_ms).unknown_pubkey_total == bump(
            m.unknown_pubkey_total,
        ),
{
}

/// With a rejected signature the outcome is always the invalid-signature
/// rejection with its counter advanced, and the cache is untouched — for
/// every request and every cache state.
pub proof fn lemma_invalid_signature_rejected(
    cache: Seq<BidView>,
    v: RequestView,
    enc: Encoding,
    m: Metrics,
)
    ensures
        resolve_spec(cache, v, enc, false).outcome == OutcomeView::InvalidSignature,
        resolve_spec(cache, v, enc, false).cache == cache,
        resolve_metrics(m, cache, v, false).invalid_signature_total == bump(
            m.invalid_signature_total,
        ),
{
}

/// An unsupported content type is rejected as a bad request for every
/// body: the decision is taken before the body is parsed and depends on
/// the content type alone.
pub proof fn lemma_unsupported_content_type(
    ct: Seq<u8>,
    keys: Seq<Seq<u8>>,
    m: Metrics,
    now_ms: u64,
)
    requires
        encoding_of_content_type(ct) is None,
    ensures
        forall|body: Seq<u8>| #[trigger]
            screen_spec(ct, body, keys) == Screened::Rejected(OutcomeView::BadRequest),
        forall|body: Seq<u8>| #[trigger]
            screen_metrics(m, ct, body, keys, now_ms) == Metrics::with_bad_request(
                Metrics::with_request(m),
            ),
{
}

/// A verified request for a hash that was never inserted, or already
/// evicted, is always answered not-found, with the not-found counter
/// advanced and the cache unchanged.
pub proof fn lemma_absent_hash_not_found(
    cache: Seq<BidView>,
    v: RequestView,
    enc: Encoding,
    m: Metrics,
)
    requires
        !has_hash(cache, v.block_hash),
    ensures
        resolve_spec(cache, v, enc, true).outcome == OutcomeView::NotFound,
        resolve_spec(cache, v, enc, true).cache == cache,
        resolve_metrics(m, cache, v, true).block_not_found_total == bump(m.block_not_found_total),
{
}

} // verus!
