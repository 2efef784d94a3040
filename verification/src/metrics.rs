//! The metrics context: outcome counters and latency accumulators that the
//! request handler and the ingestion step report into. It is constructed
//! once at startup and passed by reference — no global registry. Counters
//! and sums saturate at the largest 64-bit value instead of wrapping.

use vstd::prelude::*;

verus! {

/// `c` advanced by one, saturating.
pub open spec fn bump(c: u64) -> u64 {
    if c == u64::MAX {
        u64::MAX
    } else {
        (c + 1) as u64
    }
}

/// `c` advanced by `d`, saturating.
pub open spec fn accum(c: u64, d: u64) -> u64 {
    if c + d > u64::MAX {
        u64::MAX
    } else {
        (c + d) as u64
    }
}

/// Counters and latency accumulators of the relay server. Every request
/// advances `requests_total` and exactly one outcome counter; latencies are
/// kept as an observation count and a millisecond sum.
#[derive(Clone, Copy, PartialEq, Eq, Structural, Debug)]
pub struct Metrics {
    /// Requests received, whatever their outcome.
    pub requests_total: u64,
    /// Requests rejected for an unsupported content type or malformed body.
    pub bad_requests_total: u64,
    /// Requests rejected because the public key is not authorized.
    pub unknown_pubkey_total: u64,
    /// Requests rejected because the signature does not verify.
    pub invalid_signature_total: u64,
    /// Requests whose block hash was not in the cache.
    pub block_not_found_total: u64,
    /// Observations of the time elapsed since the request's own timestamp.
    pub relay_request_latency_count: u64,
    /// Sum in milliseconds of those observations.
    pub relay_request_latency_sum_ms: u64,
    /// Observations of handler wall-clock time.
    pub response_latency_count: u64,
    /// Sum in milliseconds of those observations.
    pub response_latency_sum_ms: u64,
    /// Items the ingestion stream reported dropped because the consumer
    /// lagged.
    pub ingest_lagged_total: u64,
}

impl Metrics {
    /// All counters at zero.
    pub open spec fn zeroed() -> Metrics {
        Metrics {
            requests_total: 0,
            bad_requests_total: 0,
            unknown_pubkey_total: 0,
            invalid_signature_total: 0,
            block_not_found_total: 0,
            relay_request_latency_count: 0,
            relay_request_latency_sum_ms: 0,
            response_latency_count: 0,
            response_latency_sum_ms: 0,
            ingest_lagged_total: 0,
        }
    }

    /// `m` after one more request was received.
    pub open spec fn with_request(m: Metrics) -> Metrics {
        Metrics { requests_total: bump(m.requests_total), ..m }
    }

    /// `m` after one more bad request.
    pub open spec fn with_bad_request(m: Metrics) -> Metrics {
        Metrics { bad_requests_total: bump(m.bad_requests_total), ..m }
    }

    /// `m` after one more unknown-key rejection.
    pub open spec fn with_unknown_pubkey(m: Metrics) -> Metrics {
        Metrics { unknown_pubkey_total: bump(m.unknown_pubkey_total), ..m }
    }

    /// `m` after one more invalid-signature rejection.
    pub open spec fn with_invalid_signature(m: Metrics) -> Metrics {
        Metrics { invalid_signature_total: bump(m.invalid_signature_total), ..m }
    }

    /// `m` after one more cache miss.
    pub open spec fn with_not_found(m: Metrics) -> Metrics {
        Metrics { block_not_found_total: bump(m.block_not_found_total), ..m }
    }

    /// `m` after reading a request issued at `ts` milliseconds at receive
    /// time `now` milliseconds: the elapsed time is observed only when the
    /// timestamp is not in the future.
    pub open spec fn with_relay_latency(m: Metrics, now: u64, ts: u64) -> Metrics {
        if ts <= now {
            Metrics {
                relay_request_latency_count: bump(m.relay_request_latency_count),
                relay_request_latency_sum_ms: accum(m.relay_request_latency_sum_ms, (now - ts) as u64),
                ..m
            }
        } else {
            m
        }
    }

    /// `m` after observing `ms` milliseconds of handler wall-clock time.
    pub open spec fn with_response_latency(m: Metrics, ms: u64) -> Metrics {
        Metrics {
            response_latency_count: bump(m.response_latency_count),
            response_latency_sum_ms: accum(m.response_latency_sum_ms, ms),
            ..m
        }
    }

    /// `m` after the ingestion stream reported `n` dropped items.
    pub open spec fn with_lag(m: Metrics, n: u64) -> Metrics {
        Metrics { ingest_lagged_total: accum(m.ingest_lagged_total, n), ..m }
    }

    /// A metrics context with all counters at zero.
    pub fn new() -> (r: Metrics)
        ensures
            r == Metrics::zeroed(),
    {
        Metrics {
            requests_total: 0,
            bad_requests_total: 0,
            unknown_pubkey_total: 0,
            invalid_signature_total: 0,
            block_not_found_total: 0,
            relay_request_latency_count: 0,
            relay_request_latency_sum_ms: 0,
            response_latency_count: 0,
            response_latency_sum_ms: 0,
            ingest_lagged_total: 0,
        }
    }

    /// Counts one received request.
    pub fn record_request(&mut self)
        ensures
            *final(self) == Metrics::with_request(*old(self)),
    {
        self.requests_total = sat_inc(self.requests_total);
    }

    /// Counts one bad request.
    pub fn record_bad_request(&mut self)
        ensures
            *final(self) == Metrics::with_bad_request(*old(self)),
    {
        self.bad_requests_total = sat_inc(self.bad_requests_total);
    }

    /// Counts one unknown-key rejection.
    pub fn record_unknown_pubkey(&mut self)
        ensures
            *final(self) == Metrics::with_unknown_pubkey(*old(self)),
    {
        self.unknown_pubkey_total = sat_inc(self.unknown_pubkey_total);
    }

    /// Counts one invalid-signature rejection.
    pub fn record_invalid_signature(&mut self)
        ensures
            *final(self) == Metrics::with_invalid_signature(*old(self)),
    {
        self.invalid_signature_total = sat_inc(self.invalid_signature_total);
    }

    /// Counts one cache miss.
    pub fn record_not_found(&mut self)
        ensures
            *final(self) == Metrics::with_not_found(*old(self)),
    {
        self.block_not_found_total = sat_inc(self.block_not_found_total);
    }

    /// Observes the time elapsed since a request's own timestamp, when that
    /// timestamp is not in the future of the receive time.
    pub fn record_relay_latency(&mut self, now_ms: u64, request_ts: u64)
        ensures
            *final(self) == Metrics::with_relay_latency(*old(self), now_ms, request_ts),
    {
        if request_ts <= now_ms {
            self.relay_request_latency_count = sat_inc(self.relay_request_latency_count);
            self.relay_request_latency_sum_ms = sat_add(
                self.relay_request_latency_sum_ms,
                now_ms - request_ts,
            );
        }
    }

    /// Observes `ms` milliseconds of handler wall-clock time.
    pub fn record_response_latency(&mut self, ms: u64)
        ensures
            *final(self) == Metrics::with_response_latency(*old(self), ms),
    {
        self.response_latency_count = sat_inc(self.response_latency_count);
        self.response_latency_sum_ms = sat_add(self.response_latency_sum_ms, ms);
    }

    /// Counts `n` items dropped by the ingestion stream.
    pub fn record_lag(&mut self, n: u64)
        ensures
            *final(self) == Metrics::with_lag(*old(self), n),
    {
        self.ingest_lagged_total = sat_add(self.ingest_lagged_total, n);
    }
}

/// `c + 1`, saturating.
fn sat_inc(c: u64) -> (r: u64)
    ensures
        r == bump(c),
{
    if c == u64::MAX {
        c
    } else {
        c + 1
    }
}

/// `c + d`, saturating.
fn sat_add(c: u64, d: u64) -> (r: u64)
    ensures
        r == accum(c, d),
{
    if c > u64::MAX - d {
        u64::MAX
    } else {
        c + d
    }
}

} // verus!
