//! The bid cache: a capacity-bounded, least-recently-used store from block
//! hash to block bid. Entry order in the model is recency order: index 0 is
//! the least recently used entry, the last index the most recently used.
//! Inserting stores or refreshes an entry, evicting the least recently used
//! one when a new hash would exceed capacity; a successful lookup also
//! refreshes the entry it returns. No other operation removes entries.

use vstd::prelude::*;
use crate::bytes::bytes_eq;
use crate::types::BidView;
use crate::types::BlockBid;

verus! {

/// No two entries share a block hash.
pub open spec fn distinct_hashes(s: Seq<BidView>) -> bool {
    forall|i: int, j: int|
        0 <= i < j < s.len() ==> (#[trigger] s[i]).block_hash != (#[trigger] s[j]).block_hash
}

/// Some entry has block hash `h`.
pub open spec fn has_hash(s: Seq<BidView>, h: Seq<u8>) -> bool {
    exists|i: int| 0 <= i < s.len() && (#[trigger] s[i]).block_hash == h
}

/// The index of the entry with block hash `h`.
pub open spec fn hash_index(s: Seq<BidView>, h: Seq<u8>) -> int
    recommends
        has_hash(s, h),
{
    choose|i: int| 0 <= i < s.len() && (#[trigger] s[i]).block_hash == h
}

/// The entry with block hash `h`.
pub open spec fn bid_at(s: Seq<BidView>, h: Seq<u8>) -> BidView
    recommends
        has_hash(s, h),
{
    s[hash_index(s, h)]
}

/// The state after refreshing the recency of the entry with hash `h`: the
/// entry moves to the most-recently-used end, nothing else changes.
pub open spec fn lru_touch(s: Seq<BidView>, h: Seq<u8>) -> Seq<BidView>
    recommends
        has_hash(s, h),
{
    s.remove(hash_index(s, h)).push(s[hash_index(s, h)])
}

/// The state after inserting `b` into a cache of capacity `cap`: a repeated
/// hash is overwritten and refreshed; a new hash is appended, evicting the
/// least recently used entry first when the cache is full.
pub open spec fn lru_insert(s: Seq<BidView>, cap: int, b: BidView) -> Seq<BidView> {
    if has_hash(s, b.block_hash) {
        s.remove(hash_index(s, b.block_hash)).push(b)
    } else if s.len() >= cap {
        s.drop_first().push(b)
    } else {
        s.push(b)
    }
}

/// Any index holding hash `h` is the index `hash_index` picks, when hashes
/// are distinct.
pub proof fn lemma_hash_index_unique(s: Seq<BidView>, h: Seq<u8>, i: int)
    requires
        distinct_hashes(s),
        0 <= i < s.len(),
        s[i].block_hash == h,
    ensures
        has_hash(s, h),
        hash_index(s, h) == i,
{
    assert(has_hash(s, h));
    let j = hash_index(s, h);
    if i < j {
        assert(s[i].block_hash != s[j].block_hash);
    } else if j < i {
        assert(s[j].block_hash != s[i].block_hash);
    }
}

/// The state after inserting the bids of `bids` in order.
pub open spec fn lru_insert_all(s: Seq<BidView>, cap: int, bids: Seq<BidView>) -> Seq<BidView>
    decreases bids.len(),
{
    if bids.len() == 0 {
        s
    } else {
        lru_insert_all(lru_insert(s, cap, bids[0]), cap, bids.drop_first())
    }
}

/// Inserting a batch and then one more bid is inserting the extended batch.
pub proof fn lemma_lru_insert_all_push(s: Seq<BidView>, cap: int, bids: Seq<BidView>, b: BidView)
    ensures
        lru_insert_all(s, cap, bids.push(b)) == lru_insert(lru_insert_all(s, cap, bids), cap, b),
    decreases bids.len(),
{
    if bids.len() == 0 {
        assert(bids.push(b)[0] == b);
        assert(bids.push(b).drop_first() =~= Seq::<BidView>::empty());
        assert(lru_insert_all(s, cap, bids.push(b)) == lru_insert_all(
            lru_insert(s, cap, b),
            cap,
            Seq::<BidView>::empty(),
        ));
        assert(lru_insert_all(lru_insert(s, cap, b), cap, Seq::<BidView>::empty()) == lru_insert(
            s,
            cap,
            b,
        ));
        assert(lru_insert_all(s, cap, bids) == s);
    } else {
        assert(bids.push(b)[0] == bids[0]);
        assert(bids.push(b).drop_first() =~= bids.drop_first().push(b));
        lemma_lru_insert_all_push(lru_insert(s, cap, bids[0]), cap, bids.drop_first(), b);
    }
}

/// After inserting the first `k` of a batch of distinct-hash bids into an
/// empty cache of capacity `cap`, the cache holds exactly the last
/// `min(k, cap)` of them, oldest first.
pub proof fn lemma_lru_fill_distinct(bids: Seq<BidView>, cap: int, k: int)
    requires
        1 <= cap,
        distinct_hashes(bids),
        0 <= k <= bids.len(),
    ensures
        lru_insert_all(Seq::empty(), cap, bids.take(k)) == bids.subrange(
            if k <= cap { 0 } else { k - cap },
            k,
        ),
    decreases k,
{
    let lo = |m: int| if m <= cap { 0int } else { m - cap };
    if k == 0 {
        assert(bids.take(0) =~= Seq::<BidView>::empty());
        assert(bids.subrange(0, 0) =~= Seq::<BidView>::empty());
    } else {
        lemma_lru_fill_distinct(bids, cap, k - 1);
        let prev = bids.subrange(lo(k - 1), k - 1);
        assert(bids.take(k) =~= bids.take(k - 1).push(bids[k - 1]));
        lemma_lru_insert_all_push(Seq::<BidView>::empty(), cap, bids.take(k - 1), bids[k - 1]);
        assert forall|j: int| 0 <= j < prev.len() implies
            (#[trigger] prev[j]).block_hash != bids[k - 1].block_hash by {
            assert(prev[j] == bids[lo(k - 1) + j]);
        }
        assert(!has_hash(prev, bids[k - 1].block_hash));
        if prev.len() >= cap {
            assert(prev.drop_first().push(bids[k - 1]) =~= bids.subrange(lo(k), k));
        } else {
            assert(prev.push(bids[k - 1]) =~= bids.subrange(lo(k), k));
        }
    }
}

/// Least-recently-used eviction order: after inserting `cap + 1` bids with
/// pairwise distinct hashes into an empty cache of capacity `cap`, the
/// first-inserted hash is absent and every later one is present.
pub proof fn lemma_lru_eviction_order(bids: Seq<BidView>, cap: int)
    requires
        1 <= cap,
        bids.len() == cap + 1,
        distinct_hashes(bids),
    ensures
        !has_hash(lru_insert_all(Seq::empty(), cap, bids), bids[0].block_hash),
        forall|i: int|
            1 <= i < bids.len() ==> has_hash(
                lru_insert_all(Seq::empty(), cap, bids),
                (#[trigger] bids[i]).block_hash,
            ),
{
    lemma_lru_fill_distinct(bids, cap, cap + 1);
    assert(bids.take(cap + 1) =~= bids);
    let end = lru_insert_all(Seq::<BidView>::empty(), cap, bids);
    assert(end == bids.subrange(1, cap + 1));
    assert forall|j: int| 0 <= j < end.len() implies
        (#[trigger] end[j]).block_hash != bids[0].block_hash by {
        assert(end[j] == bids[j + 1]);
    }
    assert(!has_hash(end, bids[0].block_hash));
    assert forall|i: int| 1 <= i < bids.len() implies has_hash(
        end,
        (#[trigger] bids[i]).block_hash,
    ) by {
        assert(end[i - 1] == bids[i]);
    }
}

/// What a recency refresh does to the model: same length, same distinctness,
/// the touched entry now last, membership unchanged.
pub proof fn lemma_touch_properties(s: Seq<BidView>, h: Seq<u8>)
    requires
        distinct_hashes(s),
        has_hash(s, h),
    ensures
        lru_touch(s, h).len() == s.len(),
        distinct_hashes(lru_touch(s, h)),
        lru_touch(s, h).last() == bid_at(s, h),
        forall|x: Seq<u8>| has_hash(lru_touch(s, h), x) <==> has_hash(s, x),
{
    let i = hash_index(s, h);
    let t = lru_touch(s, h);
    s.remove_ensures(i);
    assert forall|p: int, q: int| 0 <= p < q < t.len() implies
        (#[trigger] t[p]).block_hash != (#[trigger] t[q]).block_hash by {
        if q < t.len() - 1 {
            assert(t[p] == s.remove(i)[p]);
            assert(t[q] == s.remove(i)[q]);
        } else {
            assert(t[q] == s[i]);
            assert(t[p] == s.remove(i)[p]);
            lemma_hash_index_unique(s, h, i);
        }
    }
    assert forall|x: Seq<u8>| has_hash(t, x) <==> has_hash(s, x) by {
        if has_hash(t, x) {
            let j = choose|j: int| 0 <= j < t.len() && (#[trigger] t[j]).block_hash == x;
            if j < t.len() - 1 {
                assert(t[j] == s.remove(i)[j]);
                if j < i {
                    assert(s[j].block_hash == x);
                } else {
                    assert(s[j + 1].block_hash == x);
                }
            } else {
                assert(t[j] == s[i]);
            }
        }
        if has_hash(s, x) {
            let j = choose|j: int| 0 <= j < s.len() && (#[trigger] s[j]).block_hash == x;
            if j == i {
                assert(t[t.len() - 1] == s[i]);
            } else if j < i {
                assert(t[j] == s.remove(i)[j]);
                assert(t[j].block_hash == x);
            } else {
                assert(t[j - 1] == s.remove(i)[j - 1]);
                assert(t[j - 1].block_hash == x);
            }
        }
    }
}

/// Reading an entry protects it from the next eviction: after touching the
/// entry with hash `h`, inserting a bid with a new hash evicts the oldest
/// untouched entry, never the touched one, which stays present.
pub proof fn lemma_touch_survives_eviction(s: Seq<BidView>, cap: int, h: Seq<u8>, b: BidView)
    requires
        1 <= cap,
        2 <= s.len() <= cap,
        distinct_hashes(s),
        has_hash(s, h),
        !has_hash(s, b.block_hash),
    ensures
        has_hash(lru_insert(lru_touch(s, h), cap, b), h),
        s.len() == cap ==> !has_hash(
            lru_insert(lru_touch(s, h), cap, b),
            lru_touch(s, h)[0].block_hash,
        ),
{
    let t = lru_touch(s, h);
    lemma_touch_properties(s, h);
    let u = lru_insert(t, cap, b);
    assert(!has_hash(t, b.block_hash));
    assert(t.last().block_hash == h) by {
        lemma_hash_index_unique(s, h, hash_index(s, h));
    }
    if t.len() >= cap {
        assert(u == t.drop_first().push(b));
        assert(u[t.len() - 2] == t[t.len() - 1]);
        assert(u[t.len() - 2].block_hash == h);
        assert(has_hash(u, h));
        assert forall|j: int| 0 <= j < u.len() implies
            (#[trigger] u[j]).block_hash != t[0].block_hash by {
            if j < u.len() - 1 {
                assert(u[j] == t[j + 1]);
            } else {
                assert(u[j] == b);
                assert(t[0].block_hash != b.block_hash) by {
                    assert(has_hash(t, t[0].block_hash));
                }
            }
        }
        assert(!has_hash(u, t[0].block_hash));
    } else {
        assert(u == t.push(b));
        assert(u[t.len() - 1] == t[t.len() - 1]);
        assert(has_hash(u, h));
    }
}

/// The capacity-bounded, least-recently-used store from block hash to block
/// bid, locked as a whole by its user; every operation is a short critical
/// section of plain memory moves.
pub struct BidCache {
    entries: Vec<BlockBid>,
    capacity: usize,
}

impl View for BidCache {
    type V = Seq<BidView>;

    closed spec fn view(&self) -> Seq<BidView> {
        self.entries@.map_values(|b: BlockBid| b@)
    }
}

impl BidCache {
    /// The fixed maximum number of entries.
    pub closed spec fn capacity_spec(&self) -> int {
        self.capacity as int
    }

    /// Internal invariant: at least capacity one, never more entries than
    /// capacity, one entry per hash, every entry well formed.
    pub closed spec fn wf(&self) -> bool {
        &&& 1 <= self.capacity
        &&& self@.len() <= self.capacity
        &&& distinct_hashes(self@)
        &&& forall|i: int| 0 <= i < self@.len() ==> (#[trigger] self@[i]).wf()
    }

    /// What the invariant gives every caller.
    pub proof fn lemma_wf(&self)
        requires
            self.wf(),
        ensures
            1 <= self.capacity_spec(),
            self@.len() <= self.capacity_spec(),
            distinct_hashes(self@),
            forall|i: int| 0 <= i < self@.len() ==> (#[trigger] self@[i]).wf(),
    {
    }

    /// An empty cache with the given capacity, fixed for its lifetime.
    pub fn new(capacity: usize) -> (r: Self)
        requires
            1 <= capacity,
        ensures
            r.wf(),
            r@ == Seq::<BidView>::empty(),
            r.capacity_spec() == capacity,
    {
        let r = BidCache { entries: Vec::new(), capacity };
        proof {
            assert(r@ =~= Seq::<BidView>::empty());
        }
        r
    }

    /// The position of the entry with hash `h`, if one is present.
    fn find_index(&self, h: &Vec<u8>) -> (r: Option<usize>)
        ensures
            match r {
                Some(i) => 0 <= i < self@.len() && self@[i as int].block_hash == h@,
                None => !has_hash(self@, h@),
            },
    {
        let mut i: usize = 0;
        while i < self.entries.len()
            invariant
                i <= self.entries@.len(),
                self@ == self.entries@.map_values(|b: BlockBid| b@),
                self@.len() == self.entries@.len(),
                forall|j: int| 0 <= j < i ==> (#[trigger] self@[j]).block_hash != h@,
            decreases self.entries@.len() - i,
        {
            if bytes_eq(&self.entries[i].block_hash, h) {
                proof {
                    assert(self@[i as int].block_hash == h@);
                }
                return Some(i);
            }
            i = i + 1;
        }
        proof {
            assert(!has_hash(self@, h@));
        }
        None
    }

    /// Stores or refreshes the entry for the bid's block hash. A repeated
    /// hash overwrites the stored bid and refreshes its recency; a new hash
    /// evicts the least recently used entry first if the cache is full.
    pub fn insert(&mut self, bid: BlockBid)
        requires
            old(self).wf(),
            bid@.wf(),
        ensures
            final(self).wf(),
            final(self).capacity_spec() == old(self).capacity_spec(),
            final(self)@ == lru_insert(old(self)@, old(self).capacity_spec(), bid@),
            final(self)@.len() <= old(self).capacity_spec(),
    {
        let ghost s0 = self@;
        let ghost e0 = self.entries@;
        match self.find_index(&bid.block_hash) {
            Some(i) => {
                let ghost bv = bid@;
                self.entries.remove(i);
                self.entries.push(bid);
                proof {
                    lemma_hash_index_unique(s0, bv.block_hash, i as int);
                    e0.remove_ensures(i as int);
                    s0.remove_ensures(i as int);
                    assert(self@ =~= s0.remove(i as int).push(bv));
                    assert(self@ == lru_insert(s0, old(self).capacity_spec(), bv));
                    assert forall|p: int, q: int| 0 <= p < q < self@.len() implies
                        (#[trigger] self@[p]).block_hash != (#[trigger] self@[q]).block_hash by {
                        if q < self@.len() - 1 {
                            assert(self@[p] == s0.remove(i as int)[p]);
                            assert(self@[q] == s0.remove(i as int)[q]);
                        } else {
                            assert(self@[q] == bv);
                            assert(self@[p] == s0.remove(i as int)[p]);
                        }
                    }
                    assert forall|p: int| 0 <= p < self@.len() implies (#[trigger] self@[p]).wf() by {
                        if p < self@.len() - 1 {
                            assert(self@[p] == s0.remove(i as int)[p]);
                        }
                    }
                }
            },
            None => {
                let ghost bv = bid@;
                if self.entries.len() >= self.capacity {
                    self.entries.remove(0);
                    self.entries.push(bid);
                    proof {
                        e0.remove_ensures(0);
                        s0.remove_ensures(0);
                        assert(s0.remove(0) =~= s0.drop_first());
                        assert(self@ =~= s0.drop_first().push(bv));
                        assert(self@ == lru_insert(s0, old(self).capacity_spec(), bv));
                        assert forall|p: int, q: int| 0 <= p < q < self@.len() implies
                            (#[trigger] self@[p]).block_hash != (#[trigger] self@[q]).block_hash by {
                            if q < self@.len() - 1 {
                                assert(self@[p] == s0[p + 1]);
                                assert(self@[q] == s0[q + 1]);
                            } else {
                                assert(self@[q] == bv);
                                assert(self@[p] == s0[p + 1]);
                                assert(!has_hash(s0, bv.block_hash));
                            }
                        }
                        assert forall|p: int| 0 <= p < self@.len() implies (#[trigger] self@[p]).wf() by {
                            if p < self@.len() - 1 {
                                assert(self@[p] == s0[p + 1]);
                            }
                        }
                    }
                } else {
                    self.entries.push(bid);
                    proof {
                        assert(self@ =~= s0.push(bv));
                        assert(self@ == lru_insert(s0, old(self).capacity_spec(), bv));
                        assert forall|p: int, q: int| 0 <= p < q < self@.len() implies
                            (#[trigger] self@[p]).block_hash != (#[trigger] self@[q]).block_hash by {
                            if q == self@.len() - 1 {
                                assert(!has_hash(s0, bv.block_hash));
                                assert(self@[p] == s0[p]);
                            }
                        }
                    }
                }
            },
        }
    }

    /// Returns a copy of the entry for `h` and refreshes its recency, or
    /// nothing and no change if `h` is absent.
    pub fn get(&mut self, h: &Vec<u8>) -> (r: Option<BlockBid>)
        requires
            old(self).wf(),
        ensures
            final(self).wf(),
            final(self).capacity_spec() == old(self).capacity_spec(),
            match r {
                Some(b) => {
                    &&& has_hash(old(self)@, h@)
                    &&& b@ == bid_at(old(self)@, h@)
                    &&& final(self)@ == lru_touch(old(self)@, h@)
                },
                None => {
                    &&& !has_hash(old(self)@, h@)
                    &&& final(self)@ == old(self)@
                },
            },
    {
        let ghost s0 = self@;
        let ghost e0 = self.entries@;
        match self.find_index(h) {
            Some(i) => {
                let b = self.entries.remove(i);
                let ret = b.clone();
                self.entries.push(b);
                proof {
                    lemma_hash_index_unique(s0, h@, i as int);
                    e0.remove_ensures(i as int);
                    s0.remove_ensures(i as int);
                    assert(self@ =~= s0.remove(i as int).push(s0[i as int]));
                    assert(self@ == lru_touch(s0, h@));
                    assert(ret@ == bid_at(s0, h@));
                    assert forall|p: int, q: int| 0 <= p < q < self@.len() implies
                        (#[trigger] self@[p]).block_hash != (#[trigger] self@[q]).block_hash by {
                        if q < self@.len() - 1 {
                            assert(self@[p] == s0.remove(i as int)[p]);
                            assert(self@[q] == s0.remove(i as int)[q]);
                        } else {
                            assert(self@[q] == s0[i as int]);
                            assert(self@[p] == s0.remove(i as int)[p]);
                        }
                    }
                    assert forall|p: int| 0 <= p < self@.len() implies (#[trigger] self@[p]).wf() by {
                        if p < self@.len() - 1 {
                            assert(self@[p] == s0.remove(i as int)[p]);
                        }
                    }
                }
                Some(ret)
            },
            None => None,
        }
    }
}

} // verus!
