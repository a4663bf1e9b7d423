//! Cache of resolved streaming URLs: track id to (url, codec, bitrate).
//!
//! Lookups return the most recently inserted triple for a track id; an
//! insert for an id already present shadows the older entry.

use vstd::prelude::*;

verus! {

/// One cached resolution: the track and the stream it resolved to.
#[derive(Clone)]
pub struct CacheEntry {
    /// The track looked up.
    pub track_id: String,
    /// The resolved streaming URL.
    pub url: String,
    /// The codec hint for the stream.
    pub codec: String,
    /// The stream bitrate, in kilobits per second.
    pub bitrate: u32,
}

/// What the cache answers for `id` from position `i` on: the first entry
/// whose track id matches.
pub open spec fn spec_get_from(entries: Seq<CacheEntry>, id: Seq<char>, i: int) -> Option<
    (Seq<char>, Seq<char>, u32),
>
    decreases entries.len() - i,
{
    if i < 0 || i >= entries.len() {
        None
    } else if entries[i].track_id@ == id {
        Some((entries[i].url@, entries[i].codec@, entries[i].bitrate))
    } else {
        spec_get_from(entries, id, i + 1)
    }
}

/// What the cache answers for `id`: the first (most recent) matching entry.
pub open spec fn spec_get(entries: Seq<CacheEntry>, id: Seq<char>) -> Option<
    (Seq<char>, Seq<char>, u32),
> {
    spec_get_from(entries, id, 0)
}

/// Cache of resolved streaming URLs, newest entry first.
#[derive(Clone, Default)]
pub struct UrlCache {
    /// The cached resolutions, most recent first.
    pub entries: Vec<CacheEntry>,
}

impl UrlCache {
    /// An empty cache.
    pub fn new() -> (r: Self)
        ensures
            r.entries@.len() == 0,
            forall|id: Seq<char>| spec_get(r.entries@, id) is None,
    {
        UrlCache { entries: Vec::new() }
    }

    /// Look up the stream cached for `track_id`: its URL, codec and bitrate,
    /// or `None` when the track has not been resolved yet.
    pub fn get(&self, track_id: &str) -> (r: Option<(String, String, u32)>)
        ensures
            (r is Some <==> spec_get(self.entries@, track_id@) is Some),
            r matches Some(v) ==> (spec_get(self.entries@, track_id@) matches Some(w) && v.0@ == w.0
                && v.1@ == w.1 && v.2 == w.2),
    {
        let key: String = track_id.to_owned();
        let n = self.entries.len();
        let mut i: usize = 0;
        while i < n
            invariant
                0 <= i <= n,
                n == self.entries@.len(),
                key@ == track_id@,
                spec_get(self.entries@, track_id@) == spec_get_from(self.entries@, track_id@, i as int),
            decreases n - i,
        {
            let entry = &self.entries[i];
            if entry.track_id == key {
                return Some((entry.url.clone(), entry.codec.clone(), entry.bitrate));
            }
            i = i + 1;
        }
        None
    }

    /// Cache the stream resolved for `track_id`; a later `get` for it
    /// answers with exactly these values, and every other track id keeps
    /// its previous answer.
    pub fn insert(&mut self, track_id: String, url: String, codec: String, bitrate: u32)
        ensures
            final(self).entries@ == old(self).entries@.insert(
                0,
                (CacheEntry { track_id: track_id, url: url, codec: codec, bitrate: bitrate }),
            ),
            spec_get(final(self).entries@, track_id@) == Some((url@, codec@, bitrate)),
            forall|other: Seq<char>|
                other != track_id@ ==> spec_get(final(self).entries@, other) == spec_get(
                    old(self).entries@,
                    other,
                ),
    {
        let entry = CacheEntry { track_id: track_id, url: url, codec: codec, bitrate: bitrate };
        self.entries.insert(0, entry);
        proof {
            let entries2 = self.entries@;
            let entries1 = old(self).entries@;
            assert(entries2.skip(1) =~= entries1);
            assert forall|other: Seq<char>| other != track_id@ implies spec_get(entries2, other)
                == spec_get(entries1, other) by {
                lemma_get_from_shift(entries2, other, 1);
            }
        }
    }
}

/// Skipping entries that precede position `i` does not change the answer
/// found from `i` on: searching the suffix equals searching the shifted
/// whole.
proof fn lemma_get_from_shift(entries: Seq<CacheEntry>, id: Seq<char>, i: int)
    requires
        0 <= i <= entries.len(),
    ensures
        spec_get_from(entries, id, i) == spec_get(entries.skip(i), id),
    decreases entries.len() - i,
{
    lemma_get_from_skip(entries, id, i, 0);
}

/// The general shift: searching `entries` from `i + j` equals searching
/// `entries.skip(i)` from `j`.
proof fn lemma_get_from_skip(entries: Seq<CacheEntry>, id: Seq<char>, i: int, j: int)
    requires
        0 <= i <= entries.len(),
        0 <= j,
    ensures
        spec_get_from(entries, id, i + j) == spec_get_from(entries.skip(i), id, j),
    decreases entries.len() - i - j,
{
    if i + j < entries.len() {
        assert(entries.skip(i)[j] == entries[i + j]);
        lemma_get_from_skip(entries, id, i, j + 1);
    }
}

} // verus!
