//! Text of a histogram: its non-empty buckets as `bucket:count` pairs in
//! increasing order of bucket key, joined by `;`.

use crate::decimal::{decimal, push_decimal};
use crate::histogram::{bucket_listing, LatencyHistogram};
use vstd::prelude::*;

verus! {

/// The text of one bucket: its key, a colon, its count.
pub open spec fn bucket_text(bucket: (u64, u64)) -> Seq<char> {
    decimal(bucket.0 as nat) + seq![':'] + decimal(bucket.1 as nat)
}

/// The text of a listing: the texts of its buckets in order, with a
/// semicolon between each two. The text of the empty listing is empty.
pub open spec fn listing_text(listing: Seq<(u64, u64)>) -> Seq<char>
    decreases listing.len(),
{
    if listing.len() == 0 {
        Seq::empty()
    } else if listing.len() == 1 {
        bucket_text(listing[0])
    } else {
        listing_text(listing.drop_last()) + seq![';'] + bucket_text(listing.last())
    }
}

/// Renders a listing of buckets.
pub fn render_listing(listing: &Vec<(u64, u64)>) -> (text: String)
    ensures
        text@ == listing_text(listing@),
{
    let mut text = String::new();
    let mut i: usize = 0;
    while i < listing.len()
        invariant
            i <= listing.len(),
            text@ == listing_text(listing@.take(i as int)),
        decreases listing.len() - i,
    {
        let ghost before = text@;
        if i > 0 {
            proof {
                reveal_strlit(";");
            }
            text.append(";");
        }
        let (key, count) = listing[i];
        push_decimal(&mut text, key);
        proof {
            reveal_strlit(":");
        }
        text.append(":");
        push_decimal(&mut text, count);
        i += 1;
        proof {
            let shown = listing@.take(i as int);
            assert(shown.drop_last() =~= listing@.take(i - 1));
            assert(shown.last() == listing@[i - 1]);
            if i == 1 {
                assert(before =~= Seq::<char>::empty());
                assert(text@ =~= bucket_text(shown[0]));
            } else {
                assert(text@ =~= before + seq![';'] + bucket_text(shown.last()));
            }
        }
    }
    assert(listing@.take(i as int) =~= listing@);
    text
}

impl LatencyHistogram {
    /// The text of the histogram, such as `0:2;2:1` for two samples in
    /// bucket 0 and one in bucket 2. An empty histogram has the empty text.
    pub fn render(&self) -> (text: String)
        ensures
            text@ == listing_text(bucket_listing(self@)),
    {
        let listing = self.buckets();
        render_listing(&listing)
    }
}

} // verus!
