use vstd::prelude::*;

use crate::chrono_utils::{ts_after, ts_le, ts_max, Timestamp};
use crate::feed::{item_dates, item_views, publication_dates, FeedItem};

verus! {

/// An item dated `d` is new against watermark `w` when it has a date and that
/// date lies strictly after `w`.
pub open spec fn is_fresh(d: Option<Timestamp>, w: Timestamp) -> bool {
    d matches Some(t) && ts_after(t, w)
}

/// Positions, in feed order, of the items that are new against `w`.
pub open spec fn fresh_indices(dates: Seq<Option<Timestamp>>, w: Timestamp) -> Seq<int>
    decreases dates.len(),
{
    if dates.len() == 0 {
        Seq::empty()
    } else {
        let before = fresh_indices(dates.drop_last(), w);
        if is_fresh(dates.last(), w) {
            before.push(dates.len() - 1)
        } else {
            before
        }
    }
}

/// The watermark after a feed with these item dates: the latest of `w` and
/// every item date that could be read.
pub open spec fn latest(dates: Seq<Option<Timestamp>>, w: Timestamp) -> Timestamp
    decreases dates.len(),
{
    if dates.len() == 0 {
        w
    } else {
        let before = latest(dates.drop_last(), w);
        match dates.last() {
            Some(t) => ts_max(before, t),
            None => before,
        }
    }
}

/// What the diff engine hands back: the positions of the new items, in feed
/// order, and the watermark to store next.
#[derive(Debug)]
pub struct Diff {
    pub fresh: Vec<usize>,
    pub watermark: Timestamp,
}

pub open spec fn positions(v: Seq<usize>) -> Seq<int> {
    v.map_values(|i: usize| i as int)
}

/// Compares each item date with the watermark `w`.
pub fn diff_dates(dates: &Vec<Option<Timestamp>>, w: Timestamp) -> (r: Diff)
    ensures
        positions(r.fresh@) == fresh_indices(dates@, w),
        r.watermark == latest(dates@, w),
{
    let mut fresh: Vec<usize> = Vec::new();
    let mut mark = w;
    let mut i: usize = 0;
    while i < dates.len()
        invariant
            i <= dates@.len(),
            positions(fresh@) == fresh_indices(dates@.take(i as int), w),
            mark == latest(dates@.take(i as int), w),
        decreases dates@.len() - i,
    {
        proof {
            assert(dates@.take(i + 1).drop_last() == dates@.take(i as int));
        }
        match dates[i] {
            Some(t) => {
                if t.is_after(&w) {
                    fresh.push(i);
                }
                mark = mark.max(t);
            },
            None => {},
        }
        i = i + 1;
        assert(positions(fresh@) == fresh_indices(dates@.take(i as int), w));
    }
    assert(dates@.take(i as int) == dates@);
    Diff { fresh, watermark: mark }
}

/// The diff engine: reads each item's publication date and compares it with
/// the watermark `w`.
pub fn diff_items(items: &Vec<FeedItem>, w: Timestamp) -> (r: Diff)
    ensures
        positions(r.fresh@) == fresh_indices(item_dates(item_views(items@)), w),
        r.watermark == latest(item_dates(item_views(items@)), w),
{
    let dates = publication_dates(items);
    diff_dates(&dates, w)
}

/// The watermark never moves back: whatever the feed holds, the new
/// watermark is at or after the old one.
pub proof fn lemma_watermark_monotone(dates: Seq<Option<Timestamp>>, w: Timestamp)
    ensures
        ts_le(w, latest(dates, w)),
    decreases dates.len(),
{
    if dates.len() > 0 {
        lemma_watermark_monotone(dates.drop_last(), w);
    }
}

/// No item counts as new against a watermark at or after all its dates.
proof fn lemma_nothing_fresh_above(dates: Seq<Option<Timestamp>>, w: Timestamp, m: Timestamp)
    requires
        ts_le(latest(dates, w), m),
    ensures
        fresh_indices(dates, m).len() == 0,
        latest(dates, m) == m,
    decreases dates.len(),
{
    if dates.len() > 0 {
        let before = latest(dates.drop_last(), w);
        lemma_watermark_monotone(dates.drop_last(), w);
        assert(ts_le(before, latest(dates, w)));
        lemma_nothing_fresh_above(dates.drop_last(), w, m);
    }
}

/// Running the diff a second time on the same feed, against the watermark
/// that the first run produced, finds no new item and keeps the watermark.
pub proof fn lemma_diff_idempotent(dates: Seq<Option<Timestamp>>, w: Timestamp)
    ensures
        fresh_indices(dates, latest(dates, w)).len() == 0,
        latest(dates, latest(dates, w)) == latest(dates, w),
{
    lemma_nothing_fresh_above(dates, w, latest(dates, w));
}

/// Every position that the diff reports holds a dated item after the
/// watermark; an item whose date is absent or unreadable is never new.
pub proof fn lemma_fresh_items_are_dated(dates: Seq<Option<Timestamp>>, w: Timestamp, k: int)
    requires
        0 <= k < fresh_indices(dates, w).len(),
    ensures
        0 <= fresh_indices(dates, w)[k] < dates.len(),
        is_fresh(dates[fresh_indices(dates, w)[k]], w),
        dates[fresh_indices(dates, w)[k]] is Some,
    decreases dates.len(),
{
    let before = fresh_indices(dates.drop_last(), w);
    if k < before.len() {
        lemma_fresh_items_are_dated(dates.drop_last(), w, k);
    }
}

} // verus!
