//! Latency histogram: occurrence counts per fixed-width time bucket.
//!
//! A histogram is viewed as the multiset of the bucket keys of all samples
//! recorded so far. The number of samples in a bucket is the multiplicity of
//! its key, and the number of samples recorded is the size of the multiset.

use std::collections::BTreeMap;
use vstd::multiset::Multiset;
use vstd::prelude::*;
use vstd::std_specs::btree::{increasing_seq, spec_btree_map_iter};
use vstd::std_specs::cmp::OrdSpec;
use vstd::std_specs::iter::IteratorSpec;

verus! {

/// The usual bucket width, in milliseconds.
pub const DEFAULT_BUCKET_WIDTH_MS: u64 = 10;

/// The bucket a latency sample falls into: the elapsed time divided by the
/// bucket width, rounded down.
pub open spec fn bucket_of(elapsed_ms: u64, width_ms: u64) -> u64
    recommends
        width_ms > 0,
{
    (elapsed_ms / width_ms) as u64
}

/// Computes the bucket key of one latency sample.
pub fn bucket_key(elapsed_ms: u64, width_ms: u64) -> (key: u64)
    requires
        width_ms > 0,
    ensures
        key == bucket_of(elapsed_ms, width_ms),
        key * width_ms <= elapsed_ms < (key + 1) * width_ms,
{
    let key: u64 = elapsed_ms / width_ms;
    proof {
        vstd::arithmetic::div_mod::lemma_fundamental_div_mod(elapsed_ms as int, width_ms as int);
        vstd::arithmetic::div_mod::lemma_mod_bound(elapsed_ms as int, width_ms as int);
        assert(key * width_ms == width_ms * key) by (nonlinear_arith);
        assert((key + 1) * width_ms == key * width_ms + width_ms) by (nonlinear_arith);
    }
    key
}

/// Whether `listing` names every non-empty bucket of `samples` once, with
/// its count, in increasing order of bucket key.
pub open spec fn lists_buckets(listing: Seq<(u64, u64)>, samples: Multiset<u64>) -> bool {
    &&& forall|i: int, j: int| 0 <= i < j < listing.len() ==> listing[i].0 < listing[j].0
    &&& forall|i: int|
        0 <= i < listing.len() ==> listing[i].1 > 0 && listing[i].1 == samples.count(
            #[trigger] listing[i].0,
        )
    &&& forall|k: u64|
        samples.count(k) > 0 ==> exists|i: int| 0 <= i < listing.len() && #[trigger] listing[i].0 == k
}

/// The listing of the non-empty buckets of `samples`: each once, with its
/// count, in increasing order of bucket key.
pub open spec fn bucket_listing(samples: Multiset<u64>) -> Seq<(u64, u64)> {
    choose|listing: Seq<(u64, u64)>| lists_buckets(listing, samples)
}

/// The sum of the counts of a listing.
pub open spec fn sum_of_counts(listing: Seq<(u64, u64)>) -> nat
    decreases listing.len(),
{
    if listing.len() == 0 {
        0
    } else {
        sum_of_counts(listing.drop_last()) + listing.last().1 as nat
    }
}

/// The multiset that a map from bucket key to occurrence count stands for.
spec fn samples_of(counts: Map<u64, u64>) -> Multiset<u64> {
    Multiset::from_map(counts.map_values(|c: u64| c as nat))
}

/// Occurrence counts of latency samples, grouped into buckets of a fixed
/// width. Only buckets that hold at least one sample are stored.
#[derive(Debug)]
pub struct LatencyHistogram {
    width_ms: u64,
    counts: BTreeMap<u64, u64>,
    total: u64,
}

impl View for LatencyHistogram {
    type V = Multiset<u64>;

    closed spec fn view(&self) -> Multiset<u64> {
        samples_of(self.counts@)
    }
}

impl LatencyHistogram {
    #[verifier::type_invariant]
    spec fn well_formed(self) -> bool {
        &&& self.width_ms > 0
        &&& forall|k: u64| #[trigger] self.counts@.contains_key(k) ==> self.counts@[k] > 0
        &&& self.total == samples_of(self.counts@).len()
    }

    /// The bucket width in milliseconds.
    pub closed spec fn width(&self) -> u64 {
        self.width_ms
    }

    /// An empty histogram with the given bucket width.
    pub fn new(width_ms: u64) -> (hist: LatencyHistogram)
        requires
            width_ms > 0,
        ensures
            hist@ == Multiset::<u64>::empty(),
            hist.width() == width_ms,
    {
        let counts: BTreeMap<u64, u64> = BTreeMap::new();
        proof {
            assert(samples_of(counts@) =~= Multiset::<u64>::empty()) by {
                assert forall|k: u64| samples_of(counts@).count(k) == 0 by {
                    lemma_samples_count(counts@, k);
                }
            }
        }
        LatencyHistogram { width_ms, counts, total: 0 }
    }

    /// The bucket width in milliseconds.
    pub fn bucket_width_ms(&self) -> (width_ms: u64)
        ensures
            width_ms == self.width(),
            width_ms > 0,
    {
        proof {
            use_type_invariant(self);
        }
        self.width_ms
    }

    /// The number of samples recorded so far.
    pub fn total(&self) -> (total: u64)
        ensures
            total == self@.len(),
    {
        proof {
            use_type_invariant(self);
        }
        self.total
    }

    /// The number of samples recorded in the bucket `key`.
    pub fn count_at(&self, key: u64) -> (count: u64)
        ensures
            count == self@.count(key),
    {
        proof {
            use_type_invariant(self);
            lemma_samples_count(self.counts@, key);
        }
        match self.counts.get(&key) {
            Some(count) => *count,
            None => 0,
        }
    }

    /// Records one latency sample: the count of its bucket goes up by one,
    /// and no other bucket changes.
    pub fn record(&mut self, elapsed_ms: u64)
        requires
            old(self)@.len() < u64::MAX,
        ensures
            final(self)@ == old(self)@.insert(bucket_of(elapsed_ms, old(self).width())),
            final(self).width() == old(self).width(),
    {
        proof {
            use_type_invariant(&*self);
        }
        let key = bucket_key(elapsed_ms, self.width_ms);
        let count = self.count_at(key);
        // The parts are taken out and put back as a whole, so that the
        // histogram is well formed at every step.
        let mut taken = LatencyHistogram::new(self.width_ms);
        core::mem::swap(self, &mut taken);
        let LatencyHistogram { width_ms, mut counts, total } = taken;
        let ghost before = counts@;
        counts.insert(key, count + 1);
        proof {
            assert(samples_of(counts@) =~= samples_of(before).insert(key)) by {
                assert forall|k: u64|
                    samples_of(counts@).count(k) == samples_of(before).insert(key).count(k) by {
                    lemma_samples_count(counts@, k);
                    lemma_samples_count(before, k);
                }
            }
        }
        *self = LatencyHistogram { width_ms, counts, total: total + 1 };
    }

    /// The non-empty buckets in increasing order of key, each with its count.
    pub fn buckets(&self) -> (listing: Vec<(u64, u64)>)
        ensures
            listing@ == bucket_listing(self@),
            lists_buckets(listing@, self@),
            sum_of_counts(listing@) == self@.len(),
    {
        proof {
            use_type_invariant(self);
        }
        let mut listing: Vec<(u64, u64)> = Vec::new();
        for entry in it: self.counts.iter()
            invariant
                it.seq() == spec_btree_map_iter(&self.counts).remaining(),
                increasing_seq(
                    it.seq().map_values(|kv: (&u64, &u64)| *kv.0),
                ),
                listing@.len() == it.index(),
                forall|i: int|
                    0 <= i < listing@.len() ==> listing@[i] == (*it.seq()[i].0, *it.seq()[i].1),
        {
            let (key, count) = entry;
            listing.push((*key, *count));
        }
        proof {
            let entries = spec_btree_map_iter(&self.counts).remaining();
            assert(listing@.len() == entries.len());
            let keys = entries.map_values(|kv: (&u64, &u64)| *kv.0);
            assert forall|i: int, j: int| 0 <= i < j < listing@.len() implies listing@[i].0
                < listing@[j].0 by {
                lemma_increasing_keys(keys);
                assert(keys[i] == listing@[i].0);
                assert(keys[j] == listing@[j].0);
            }
            assert forall|i: int| 0 <= i < listing@.len() implies listing@[i].1 > 0
                && listing@[i].1 == self@.count(#[trigger] listing@[i].0) by {
                assert(self.counts@.contains_key(*entries[i].0));
                lemma_samples_count(self.counts@, listing@[i].0);
            }
            assert forall|k: u64| self@.count(k) > 0 implies exists|i: int|
                0 <= i < listing@.len() && #[trigger] listing@[i].0 == k by {
                lemma_samples_count(self.counts@, k);
                assert(self.counts@.contains_key(k));
                let kv = (&k, &self.counts@[k]);
                assert(entries.contains(kv));
                let i = choose|i: int| 0 <= i < entries.len() && entries[i] == kv;
                assert(listing@[i].0 == k);
            }
            lemma_listing_unique(listing@, self@);
            lemma_counts_sum_to_size(listing@, self@);
        }
        listing
    }
}

/// Two listings whose keys increase strictly and that hold the same pairs
/// are the same listing.
proof fn lemma_increasing_same_pairs(a: Seq<(u64, u64)>, b: Seq<(u64, u64)>)
    requires
        forall|i: int, j: int| 0 <= i < j < a.len() ==> a[i].0 < a[j].0,
        forall|i: int, j: int| 0 <= i < j < b.len() ==> b[i].0 < b[j].0,
        forall|i: int| 0 <= i < a.len() ==> b.contains(#[trigger] a[i]),
        forall|i: int| 0 <= i < b.len() ==> a.contains(#[trigger] b[i]),
    ensures
        a == b,
    decreases a.len(),
{
    if a.len() == 0 {
        if b.len() > 0 {
            assert(a.contains(b[0]));
        }
        assert(a =~= b);
    } else {
        let la = a.len() - 1;
        assert(b.contains(a[la]));
        let j = choose|j: int| 0 <= j < b.len() && b[j] == a[la];
        let lb = b.len() - 1;
        assert(a.contains(b[lb]));
        let i = choose|i: int| 0 <= i < a.len() && a[i] == b[lb];
        assert(j == lb);
        let a0 = a.drop_last();
        let b0 = b.drop_last();
        assert forall|x: int| 0 <= x < a0.len() implies b0.contains(#[trigger] a0[x]) by {
            assert(b.contains(a[x]));
            let y = choose|y: int| 0 <= y < b.len() && b[y] == a[x];
            assert(y < lb);
            assert(b0[y] == a0[x]);
        }
        assert forall|y: int| 0 <= y < b0.len() implies a0.contains(#[trigger] b0[y]) by {
            assert(a.contains(b[y]));
            let x = choose|x: int| 0 <= x < a.len() && a[x] == b[y];
            assert(x < la);
            assert(a0[x] == b0[y]);
        }
        lemma_increasing_same_pairs(a0, b0);
        assert(a =~= a0.push(a[la]));
        assert(b =~= b0.push(b[lb]));
    }
}

/// A multiset has one listing of its buckets only.
pub proof fn lemma_listing_unique(listing: Seq<(u64, u64)>, samples: Multiset<u64>)
    requires
        lists_buckets(listing, samples),
    ensures
        listing == bucket_listing(samples),
{
    let chosen = bucket_listing(samples);
    assert(lists_buckets(chosen, samples));
    lemma_same_buckets_same_pairs(listing, chosen, samples);
    lemma_same_buckets_same_pairs(chosen, listing, samples);
    lemma_increasing_same_pairs(listing, chosen);
}

/// The counts of a listing of a multiset's buckets add up to the size of
/// the multiset: every sample is counted in one bucket, once.
pub proof fn lemma_counts_sum_to_size(listing: Seq<(u64, u64)>, samples: Multiset<u64>)
    requires
        lists_buckets(listing, samples),
    ensures
        sum_of_counts(listing) == samples.len(),
    decreases listing.len(),
{
    if listing.len() == 0 {
        assert(samples =~= Multiset::<u64>::empty());
    } else {
        let key = listing.last().0;
        let rest = samples.filter(|k: u64| k != key);
        let only = samples.filter(|k: u64| k == key);
        assert(samples =~= rest.add(only));
        lemma_single_key_size(only, key);
        let shorter = listing.drop_last();
        assert forall|k: u64| rest.count(k) > 0 implies exists|i: int|
            0 <= i < shorter.len() && #[trigger] shorter[i].0 == k by {
            let i = choose|i: int| 0 <= i < listing.len() && #[trigger] listing[i].0 == k;
            assert(shorter[i].0 == k);
        }
        assert(lists_buckets(shorter, rest));
        lemma_counts_sum_to_size(shorter, rest);
    }
}

/// A multiset that holds one key only is as large as the count of that key.
proof fn lemma_single_key_size(samples: Multiset<u64>, key: u64)
    requires
        forall|k: u64| k != key ==> samples.count(k) == 0,
    ensures
        samples.len() == samples.count(key),
    decreases samples.len(),
{
    if samples.len() == 0 {
    } else {
        assert(samples.count(samples.choose()) > 0);
        lemma_single_key_size(samples.remove(key), key);
    }
}

/// Every pair of one listing of a multiset's buckets occurs in another.
proof fn lemma_same_buckets_same_pairs(
    a: Seq<(u64, u64)>,
    b: Seq<(u64, u64)>,
    samples: Multiset<u64>,
)
    requires
        lists_buckets(a, samples),
        lists_buckets(b, samples),
    ensures
        forall|i: int| 0 <= i < a.len() ==> b.contains(#[trigger] a[i]),
{
    assert forall|i: int| 0 <= i < a.len() implies b.contains(#[trigger] a[i]) by {
        let k = a[i].0;
        assert(samples.count(k) > 0);
        let j = choose|j: int| 0 <= j < b.len() && #[trigger] b[j].0 == k;
        assert(b[j].1 == samples.count(b[j].0));
        assert(b[j] == a[i]);
    }
}

/// A sequence of integers that the map's own order calls increasing is
/// strictly increasing by `<`.
proof fn lemma_increasing_keys(keys: Seq<u64>)
    requires
        increasing_seq(keys),
    ensures
        forall|i: int, j: int| 0 <= i < j < keys.len() ==> keys[i] < keys[j],
{
    assert(vstd::laws_cmp::obeys_cmp::<u64>());
    assert forall|i: int, j: int| 0 <= i < j < keys.len() implies keys[i] < keys[j] by {
        assert(keys[i].cmp_spec(&keys[j]) is Less);
    }
}

/// The multiplicity of a key in `samples_of(counts)` is its stored count,
/// and zero for a key that is not stored.
proof fn lemma_samples_count(counts: Map<u64, u64>, key: u64)
    requires
        counts.dom().finite(),
    ensures
        samples_of(counts).count(key) == if counts.contains_key(key) {
            counts[key] as nat
        } else {
            0
        },
{
    let m = counts.map_values(|c: u64| c as nat);
    assert(m.dom() =~= counts.dom());
}

} // verus!
