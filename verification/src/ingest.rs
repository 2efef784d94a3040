//! The ingestion step: the decision logic of the long-running task that
//! drains the broadcast stream of newly submitted bids and populates the
//! cache. The embedding process awaits the stream and hands each event
//! here; lost items cannot be recovered, so a lag report only surfaces the
//! count and consumption continues, and stream closure changes nothing —
//! the task never stops serving on its account.

use vstd::prelude::*;
use crate::cache::lru_insert;
use crate::cache::BidCache;
use crate::metrics::Metrics;
use crate::types::BlockBid;

verus! {

/// One observation on the bid broadcast stream.
pub enum StreamEvent {
    /// A bid was received and is to be cached.
    Bid(BlockBid),
    /// The consumer fell behind and the channel dropped this many items.
    Lagged(u64),
    /// The stream reported that no producers remain.
    Closed,
}

/// Applies one stream event: a received bid is inserted into the cache
/// (fire and forget), a lag report is counted and consumption goes on, and
/// closure is left to the process's supervision — nothing changes.
pub fn ingest_event(event: StreamEvent, cache: &mut BidCache, metrics: &mut Metrics)
    requires
        old(cache).wf(),
        event matches StreamEvent::Bid(b) ==> b@.wf(),
    ensures
        final(cache).wf(),
        final(cache).capacity_spec() == old(cache).capacity_spec(),
        match event {
            StreamEvent::Bid(b) => {
                &&& final(cache)@ == lru_insert(old(cache)@, old(cache).capacity_spec(), b@)
                &&& *final(metrics) == *old(metrics)
            },
            StreamEvent::Lagged(n) => {
                &&& final(cache)@ == old(cache)@
                &&& *final(metrics) == Metrics::with_lag(*old(metrics), n)
            },
            StreamEvent::Closed => {
                &&& final(cache)@ == old(cache)@
                &&& *final(metrics) == *old(metrics)
            },
        },
{
    match event {
        StreamEvent::Bid(bid) => {
            cache.insert(bid);
        },
        StreamEvent::Lagged(n) => {
            metrics.record_lag(n);
        },
        StreamEvent::Closed => {},
    }
}

} // verus!
