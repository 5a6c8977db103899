//! The glyph cache of a surface: an unbounded `lru::LruCache`, seen as the
//! sequence of its entries from the most to the least recently used.

use crate::glyph::{GlyphDetails, GlyphonCacheKey};
use lru::LruCache;
use rustc_hash::FxHasher;
use std::hash::BuildHasherDefault;
use vstd::prelude::*;

verus! {

/// The lru crate's cache, opaque to the verifier.
#[verifier::external_type_specification]
#[verifier::external_body]
#[verifier::reject_recursive_types(K)]
#[verifier::reject_recursive_types(V)]
#[verifier::reject_recursive_types(S)]
pub struct ExLruCache<K, V, S>(LruCache<K, V, S>);

/// rustc-hash's hasher, opaque to the verifier.
#[verifier::external_type_specification]
#[verifier::external_body]
pub struct ExFxHasher(FxHasher);

/// std's default-constructed hasher builder, opaque to the verifier.
#[verifier::external_type_specification]
#[verifier::external_body]
#[verifier::reject_recursive_types(H)]
pub struct ExBuildHasherDefault<H>(BuildHasherDefault<H>);

/// One cache entry: a glyph's identity and what is remembered about it.
pub type CacheEntry = (GlyphonCacheKey, GlyphDetails);

/// The cache type of a surface.
pub type GlyphCache = LruCache<GlyphonCacheKey, GlyphDetails, BuildHasherDefault<FxHasher>>;

/// The entries of the cache, most recently used first: what `iter()` yields.
pub uninterp spec fn cache_entries(cache: GlyphCache) -> Seq<CacheEntry>;

/// The details stored under `key`, if any.
pub open spec fn find_key(entries: Seq<CacheEntry>, key: GlyphonCacheKey) -> Option<GlyphDetails>
    decreases entries.len(),
{
    if entries.len() == 0 {
        None
    } else if entries[0].0 == key {
        Some(entries[0].1)
    } else {
        find_key(entries.drop_first(), key)
    }
}

/// The entries without those stored under `key`, in their order.
pub open spec fn remove_key(entries: Seq<CacheEntry>, key: GlyphonCacheKey) -> Seq<CacheEntry>
    decreases entries.len(),
{
    if entries.len() == 0 {
        entries
    } else if entries[0].0 == key {
        remove_key(entries.drop_first(), key)
    } else {
        seq![entries[0]] + remove_key(entries.drop_first(), key)
    }
}

/// The entries after `key` was put with `details`: the new entry is the most
/// recently used one, and an older entry under the same key is gone.
pub open spec fn put_front(
    entries: Seq<CacheEntry>,
    key: GlyphonCacheKey,
    details: GlyphDetails,
) -> Seq<CacheEntry> {
    seq![(key, details)] + remove_key(entries, key)
}

/// Whether `key` has an entry.
pub open spec fn has_key(entries: Seq<CacheEntry>, key: GlyphonCacheKey) -> bool {
    exists|i: int| 0 <= i < entries.len() && (#[trigger] entries[i]).0 == key
}

/// Whether no key has two entries.
pub open spec fn keys_distinct(entries: Seq<CacheEntry>) -> bool {
    forall|i: int, j: int|
        0 <= i < j < entries.len() ==> (#[trigger] entries[i]).0 != (#[trigger] entries[j]).0
}

/// `LruCache::unbounded_with_hasher`, with the default Fx hasher builder: a
/// cache without entries.
#[verifier::external_body]
pub(crate) fn cache_new() -> (cache: GlyphCache)
    ensures
        cache_entries(cache) == Seq::<CacheEntry>::empty(),
{
    LruCache::unbounded_with_hasher(BuildHasherDefault::default())
}

/// `LruCache::put` on an unbounded cache: the entry becomes the most recently
/// used one, replacing the entry stored under an equal key, whose details are
/// returned. Keys are compared by their derived `Eq`, which agrees with
/// equality of their fields.
#[verifier::external_body]
pub(crate) fn cache_put(
    cache: &mut GlyphCache,
    key: GlyphonCacheKey,
    details: GlyphDetails,
) -> (previous: Option<GlyphDetails>)
    ensures
        cache_entries(*final(cache)) == put_front(cache_entries(*old(cache)), key, details),
        previous == find_key(cache_entries(*old(cache)), key),
{
    cache.put(key, details)
}

/// `LruCache::iter`, collected: the entries from the most to the least
/// recently used.
#[verifier::external_body]
pub(crate) fn cache_snapshot(cache: &GlyphCache) -> (entries: Vec<CacheEntry>)
    ensures
        entries@ == cache_entries(*cache),
{
    cache.iter().map(|(key, details)| (*key, *details)).collect()
}

/// Removing a key leaves only entries that were there, none of them under
/// that key, and keeps distinct keys distinct.
pub proof fn lemma_remove_key(entries: Seq<CacheEntry>, key: GlyphonCacheKey)
    ensures
        !has_key(remove_key(entries, key), key),
        forall|e: CacheEntry| #[trigger]
            remove_key(entries, key).contains(e) <==> entries.contains(e) && e.0 != key,
        keys_distinct(entries) ==> keys_distinct(remove_key(entries, key)),
        remove_key(entries, key).len() <= entries.len(),
        !has_key(entries, key) ==> remove_key(entries, key) == entries,
    decreases entries.len(),
{
    let removed = remove_key(entries, key);
    if entries.len() == 0 {
        assert forall|e: CacheEntry| #[trigger]
            removed.contains(e) <==> entries.contains(e) && e.0 != key by {}
    } else {
        let rest = entries.drop_first();
        let rest_removed = remove_key(rest, key);
        lemma_remove_key(rest, key);
        assert forall|e: CacheEntry| entries.contains(e) <==> e == entries[0] || rest.contains(
            e,
        ) by {
            if entries.contains(e) {
                let i = choose|i: int| 0 <= i < entries.len() && entries[i] == e;
                if i > 0 {
                    assert(rest[i - 1] == e);
                }
            }
            if rest.contains(e) {
                let i = choose|i: int| 0 <= i < rest.len() && rest[i] == e;
                assert(entries[i + 1] == e);
            }
        }
        if keys_distinct(entries) {
            assert forall|i: int, j: int| 0 <= i < j < rest.len() implies (#[trigger] rest[i]).0
                != (#[trigger] rest[j]).0 by {
                assert(rest[i] == entries[i + 1] && rest[j] == entries[j + 1]);
            }
        }
        if entries[0].0 == key {
            assert(removed == rest_removed);
            assert(has_key(entries, key));
        } else {
            let head = seq![entries[0]];
            assert(removed == head + rest_removed);
            assert forall|e: CacheEntry| #[trigger]
                removed.contains(e) <==> entries.contains(e) && e.0 != key by {
                if removed.contains(e) {
                    let i = choose|i: int| 0 <= i < removed.len() && removed[i] == e;
                    if i > 0 {
                        assert(rest_removed[i - 1] == e);
                        assert(rest_removed.contains(e));
                    }
                }
                if entries.contains(e) && e.0 != key {
                    if e == entries[0] {
                        assert(removed[0] == e);
                    } else {
                        assert(rest_removed.contains(e));
                        let i = choose|i: int| 0 <= i < rest_removed.len() && rest_removed[i] == e;
                        assert(removed[i + 1] == e);
                    }
                }
            }
            if has_key(removed, key) {
                let i = choose|i: int| 0 <= i < removed.len() && (#[trigger] removed[i]).0 == key;
                assert(i > 0);
                assert(rest_removed[i - 1].0 == key);
                assert(false);
            }
            if keys_distinct(entries) {
                assert forall|i: int, j: int| 0 <= i < j < removed.len() implies (
                #[trigger] removed[i]).0 != (#[trigger] removed[j]).0 by {
                    assert(removed[j] == rest_removed[j - 1]);
                    if i == 0 {
                        assert(rest_removed.contains(rest_removed[j - 1]));
                        assert(rest.contains(removed[j]));
                        let k = choose|k: int| 0 <= k < rest.len() && rest[k] == removed[j];
                        assert(entries[k + 1] == removed[j]);
                    } else {
                        assert(removed[i] == rest_removed[i - 1]);
                    }
                }
            }
            if !has_key(entries, key) {
                if has_key(rest, key) {
                    let i = choose|i: int| 0 <= i < rest.len() && (#[trigger] rest[i]).0 == key;
                    assert(entries[i + 1].0 == key);
                    assert(false);
                }
                assert(rest_removed == rest);
                assert(removed =~= entries);
            }
        }
    }
}

/// Putting a key keeps distinct keys distinct, makes the new entry the first
/// one, and keeps every entry under another key.
pub proof fn lemma_put_front(entries: Seq<CacheEntry>, key: GlyphonCacheKey, details: GlyphDetails)
    ensures
        put_front(entries, key, details)[0] == (key, details),
        put_front(entries, key, details).len() == remove_key(entries, key).len() + 1,
        keys_distinct(entries) ==> keys_distinct(put_front(entries, key, details)),
        forall|e: CacheEntry|
            e.0 != key ==> (#[trigger] put_front(entries, key, details).contains(e)
                <==> entries.contains(e)),
        find_key(put_front(entries, key, details), key) == Some(details),
{
    let removed = remove_key(entries, key);
    let after = put_front(entries, key, details);
    lemma_remove_key(entries, key);
    assert(after[0] == (key, details));
    assert forall|i: int| 1 <= i < after.len() implies #[trigger] after[i] == removed[i - 1] by {}
    if keys_distinct(entries) {
        assert forall|i: int, j: int| 0 <= i < j < after.len() implies (#[trigger] after[i]).0 != (
        #[trigger] after[j]).0 by {
            assert(after[j] == removed[j - 1]);
            if i == 0 {
                assert(removed[j - 1].0 != key);
            } else {
                assert(after[i] == removed[i - 1]);
            }
        }
    }
    assert forall|e: CacheEntry| e.0 != key implies (#[trigger] after.contains(e)
        <==> entries.contains(e)) by {
        if after.contains(e) {
            let i = choose|i: int| 0 <= i < after.len() && after[i] == e;
            assert(i >= 1);
            assert(removed[i - 1] == e);
            assert(removed.contains(e));
        }
        if entries.contains(e) {
            assert(removed.contains(e));
            let i = choose|i: int| 0 <= i < removed.len() && removed[i] == e;
            assert(after[i + 1] == e);
        }
    }
}

} // verus!
