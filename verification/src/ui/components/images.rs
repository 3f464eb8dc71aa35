//! The raw images that the client has fetched, kept by their address for as
//! long as they are among the most recently used.

use crate::ui::layout::Rect;
use lru::LruCache;
use vstd::prelude::*;

verus! {

/// A cache of the crate `lru` that holds raw images by their address. What
/// it holds is known through `lru_entries` and `lru_limit` alone.
#[verifier::external_body]
pub struct LruImages {
    cache: LruCache<String, Vec<u8>>,
}

/// What a cache of raw images holds: addresses with their images, the most
/// recently used first.
pub uninterp spec fn lru_entries(cache: LruImages) -> Seq<(Seq<char>, Seq<u8>)>;

/// How many images a cache of raw images was made for.
pub uninterp spec fn lru_limit(cache: LruImages) -> nat;

/// Where the address `key` stands in `entries`; the length of `entries`
/// where it does not stand there.
pub open spec fn entry_position(entries: Seq<(Seq<char>, Seq<u8>)>, key: Seq<char>) -> int
    decreases entries.len(),
{
    if entries.len() == 0 {
        0
    } else if entries[0].0 == key {
        0
    } else {
        1 + entry_position(entries.drop_first(), key)
    }
}

/// `entries` after the entry at `at` was used: it stands first.
pub open spec fn used_at(entries: Seq<(Seq<char>, Seq<u8>)>, at: int) -> Seq<(Seq<char>, Seq<u8>)> {
    seq![entries[at]] + entries.remove(at)
}

/// `entries` after `value` was put in under `key` into a cache made for
/// `limit` entries. An entry with that address gets the new image and stands
/// first. Else the new entry stands first, and the entry that was used
/// least recently leaves where the cache was full.
pub open spec fn entries_after_put(
    entries: Seq<(Seq<char>, Seq<u8>)>,
    limit: nat,
    key: Seq<char>,
    value: Seq<u8>,
) -> Seq<(Seq<char>, Seq<u8>)> {
    let at = entry_position(entries, key);
    if at < entries.len() {
        seq![(key, value)] + entries.remove(at)
    } else if entries.len() == limit {
        seq![(key, value)] + entries.drop_last()
    } else {
        seq![(key, value)] + entries
    }
}

/// Makes a cache with `LruCache::new`: it is empty and holds `limit` entries
/// at most.
#[verifier::external_body]
fn lru_new(limit: usize) -> (cache: LruImages)
    requires
        limit > 0,
    ensures
        lru_entries(cache) == Seq::<(Seq<char>, Seq<u8>)>::empty(),
        lru_limit(cache) == limit,
{
    LruImages { cache: LruCache::new(std::num::NonZeroUsize::new(limit).unwrap()) }
}

/// Calls `LruCache::get`: the image under `key` is handed out and its entry
/// becomes the most recently used one; a cache without that address stays as
/// it is.
#[verifier::external_body]
fn lru_get<'a>(cache: &'a mut LruImages, key: &str) -> (found: Option<&'a Vec<u8>>)
    ensures
        lru_limit(*final(cache)) == lru_limit(*old(cache)),
        entry_position(lru_entries(*old(cache)), key@) < lru_entries(*old(cache)).len() ==> {
            &&& found is Some
            &&& found->0@ == lru_entries(*old(cache))[entry_position(
                lru_entries(*old(cache)),
                key@,
            )].1
            &&& lru_entries(*final(cache)) == used_at(
                lru_entries(*old(cache)),
                entry_position(lru_entries(*old(cache)), key@),
            )
        },
        entry_position(lru_entries(*old(cache)), key@) >= lru_entries(*old(cache)).len() ==> {
            &&& found is None
            &&& lru_entries(*final(cache)) == lru_entries(*old(cache))
        },
{
    cache.cache.get(key)
}

/// Calls `LruCache::peek`: the image under `key` is handed out, and nothing
/// changes.
#[verifier::external_body]
fn lru_peek<'a>(cache: &'a LruImages, key: &str) -> (found: Option<&'a Vec<u8>>)
    ensures
        entry_position(lru_entries(*cache), key@) < lru_entries(*cache).len() ==> found is Some
            && found->0@ == lru_entries(*cache)[entry_position(lru_entries(*cache), key@)].1,
        entry_position(lru_entries(*cache), key@) >= lru_entries(*cache).len() ==> found is None,
{
    cache.cache.peek(key)
}

/// Calls `LruCache::put`, see `entries_after_put`.
#[verifier::external_body]
fn lru_put(cache: &mut LruImages, key: String, value: Vec<u8>)
    ensures
        lru_limit(*final(cache)) == lru_limit(*old(cache)),
        lru_entries(*final(cache)) == entries_after_put(
            lru_entries(*old(cache)),
            lru_limit(*old(cache)),
            key@,
            value@,
        ),
{
    cache.cache.put(key, value);
}

/// What names a picture drawn for the terminal: where the image came from,
/// and the size of the area that it was drawn for.
#[derive(Hash, PartialEq, Eq)]
pub struct SixelCacheKey {
    pub url: String,
    pub width: u16,
    pub height: u16,
}

impl SixelCacheKey {
    pub fn new(url: String, area: Rect) -> (key: Self)
        ensures
            key.url == url,
            key.width == area.width,
            key.height == area.height,
    {
        Self { url, width: area.width, height: area.height }
    }
}

/// How many raw images are kept.
pub const IMAGE_CACHE_SIZE: usize = 200;

/// The raw images, by their address.
pub struct ImageCache {
    cache: LruImages,
}

impl ImageCache {
    /// What the cache holds: addresses with their images, the most recently
    /// used first.
    pub closed spec fn entries(&self) -> Seq<(Seq<char>, Seq<u8>)> {
        lru_entries(self.cache)
    }

    /// How many images the cache was made for.
    pub closed spec fn limit(&self) -> nat {
        lru_limit(self.cache)
    }

    /// The cache holds an image under `url`.
    pub open spec fn holds(&self, url: Seq<char>) -> bool {
        entry_position(self.entries(), url) < self.entries().len()
    }

    /// The image that the cache holds under `url`.
    pub open spec fn image(&self, url: Seq<char>) -> Seq<u8> {
        self.entries()[entry_position(self.entries(), url)].1
    }

    /// No address stands twice in the cache, and the cache holds no more
    /// images than it was made for.
    pub open spec fn wf(&self) -> bool {
        &&& self.entries().len() <= self.limit()
        &&& self.limit() > 0
        &&& forall|i: int, j: int|
            0 <= i < j < self.entries().len() ==> self.entries()[i].0 != self.entries()[j].0
    }

    pub fn new() -> (cache: Self)
        ensures
            cache.wf(),
            cache.entries().len() == 0,
            cache.limit() == IMAGE_CACHE_SIZE,
    {
        Self { cache: lru_new(IMAGE_CACHE_SIZE) }
    }

    /// The image under `url`, which becomes the most recently used one.
    pub fn get(&mut self, url: &str) -> (found: Option<&Vec<u8>>)
        ensures
            old(self).wf() ==> final(self).wf(),
            final(self).limit() == old(self).limit(),
            found is Some == old(self).holds(url@),
            found is Some ==> found->0@ == old(self).image(url@),
            final(self).entries() == if old(self).holds(url@) {
                used_at(old(self).entries(), entry_position(old(self).entries(), url@))
            } else {
                old(self).entries()
            },
    {
        proof {
            if self.wf() && self.holds(url@) {
                lemma_use_keeps_bounds(self.entries(), self.limit(), url@);
            }
        }
        lru_get(&mut self.cache, url)
    }

    /// Whether the cache holds an image under `url`. Asking does not count as
    /// a use.
    pub fn contains(&self, url: &str) -> (held: bool)
        ensures
            held == self.holds(url@),
    {
        lru_peek(&self.cache, url).is_some()
    }

    /// Puts `data` in under `url`, as the most recently used image. Where the
    /// cache is full and holds nothing under `url`, the image that was used
    /// least recently leaves.
    pub fn insert(&mut self, url: String, data: Vec<u8>)
        ensures
            old(self).wf() ==> final(self).wf(),
            final(self).holds(url@),
            final(self).image(url@) == data@,
            final(self).limit() == old(self).limit(),
            final(self).entries() == entries_after_put(
                old(self).entries(),
                old(self).limit(),
                url@,
                data@,
            ),
    {
        proof {
            lemma_entry_position(self.entries(), url@);
            if self.wf() {
                lemma_put_keeps_bounds(self.entries(), self.limit(), url@, data@);
            }
        }
        lru_put(&mut self.cache, url, data);
    }
}

/// What `entry_position` finds: the first place of the address.
pub proof fn lemma_entry_position(entries: Seq<(Seq<char>, Seq<u8>)>, key: Seq<char>)
    ensures
        0 <= entry_position(entries, key) <= entries.len(),
        entry_position(entries, key) < entries.len() ==> entries[entry_position(entries, key)].0
            == key,
        forall|k: int| 0 <= k < entry_position(entries, key) ==> (#[trigger] entries[k]).0 != key,
    decreases entries.len(),
{
    if entries.len() > 0 && entries[0].0 != key {
        let rest = entries.drop_first();
        lemma_entry_position(rest, key);
        assert forall|k: int| 0 <= k < entry_position(entries, key) implies (
        #[trigger] entries[k]).0 != key by {
            if k > 0 {
                assert(rest[k - 1] == entries[k]);
            }
        }
    }
}

/// Using an image leaves the cache within its bounds: it holds the same
/// entries in another order.
pub proof fn lemma_use_keeps_bounds(entries: Seq<(Seq<char>, Seq<u8>)>, limit: nat, url: Seq<char>)
    requires
        entries.len() <= limit,
        forall|i: int, j: int| 0 <= i < j < entries.len() ==> entries[i].0 != entries[j].0,
        entry_position(entries, url) < entries.len(),
    ensures
        used_at(entries, entry_position(entries, url)).len() == entries.len(),
        forall|i: int, j: int|
            0 <= i < j < entries.len() ==> used_at(entries, entry_position(entries, url))[i].0
                != used_at(entries, entry_position(entries, url))[j].0,
{
    lemma_entry_position(entries, url);
    let at = entry_position(entries, url);
    let after = used_at(entries, at);
    let rest = entries.remove(at);
    assert forall|i: int, j: int| 0 <= i < j < entries.len() implies after[i].0 != after[j].0 by {
        let from_j = if j - 1 < at {
            j - 1
        } else {
            j
        };
        assert(after[j] == rest[j - 1]);
        assert(rest[j - 1] == entries[from_j]);
        if i == 0 {
            assert(after[0] == entries[at]);
            if from_j < at {
                assert(entries[from_j].0 != entries[at].0);
            } else {
                assert(entries[at].0 != entries[from_j].0);
            }
        } else {
            let from_i = if i - 1 < at {
                i - 1
            } else {
                i
            };
            assert(after[i] == rest[i - 1]);
            assert(rest[i - 1] == entries[from_i]);
        }
    }
}

/// An image that was put in is there: right after `data` was put in under
/// `url`, the cache holds `data` under `url`, as its most recently used
/// image.
pub proof fn lemma_put_then_held(
    entries: Seq<(Seq<char>, Seq<u8>)>,
    limit: nat,
    url: Seq<char>,
    data: Seq<u8>,
)
    requires
        limit > 0,
        entries.len() <= limit,
    ensures
        entries_after_put(entries, limit, url, data).len() > 0,
        entries_after_put(entries, limit, url, data)[0] == (url, data),
        entry_position(entries_after_put(entries, limit, url, data), url) == 0,
{
    lemma_entry_position(entries, url);
}

/// The cache never outgrows what it was made for, and never holds an address
/// twice: putting an image into a cache of which this holds leaves a cache of
/// which it holds.
pub proof fn lemma_put_keeps_bounds(
    entries: Seq<(Seq<char>, Seq<u8>)>,
    limit: nat,
    url: Seq<char>,
    data: Seq<u8>,
)
    requires
        limit > 0,
        entries.len() <= limit,
        forall|i: int, j: int| 0 <= i < j < entries.len() ==> entries[i].0 != entries[j].0,
    ensures
        entries_after_put(entries, limit, url, data).len() <= limit,
        forall|i: int, j: int|
            0 <= i < j < entries_after_put(entries, limit, url, data).len() ==> entries_after_put(
                entries,
                limit,
                url,
                data,
            )[i].0 != entries_after_put(entries, limit, url, data)[j].0,
{
    lemma_entry_position(entries, url);
    let after = entries_after_put(entries, limit, url, data);
    let at = entry_position(entries, url);
    assert forall|i: int, j: int| 0 <= i < j < after.len() implies after[i].0 != after[j].0 by {
        if at < entries.len() {
            let rest = entries.remove(at);
            assert(after[j] == rest[j - 1]);
            let from_j = if j - 1 < at {
                j - 1
            } else {
                j
            };
            assert(rest[j - 1] == entries[from_j]);
            if i == 0 {
                if from_j < at {
                    assert(entries[from_j].0 != url);
                } else {
                    assert(entries[at].0 != entries[from_j].0);
                }
            } else {
                let from_i = if i - 1 < at {
                    i - 1
                } else {
                    i
                };
                assert(after[i] == rest[i - 1]);
                assert(rest[i - 1] == entries[from_i]);
            }
        } else {
            let rest = if entries.len() == limit {
                entries.drop_last()
            } else {
                entries
            };
            assert(after[j] == rest[j - 1]);
            assert(rest[j - 1] == entries[j - 1]);
            if i == 0 {
                assert(entries[j - 1].0 != url);
            } else {
                assert(after[i] == entries[i - 1]);
            }
        }
    }
}

} // verus!
