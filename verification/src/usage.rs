//! The set of glyphs referenced during the current frame.

use crate::glyph::GlyphonCacheKey;
use vstd::prelude::*;

verus! {

/// A set of glyph identities, kept as a list in which no key occurs twice.
pub struct UsageSet {
    keys: Vec<GlyphonCacheKey>,
}

impl View for UsageSet {
    type V = Set<GlyphonCacheKey>;

    closed spec fn view(&self) -> Set<GlyphonCacheKey> {
        self.keys@.to_set()
    }
}

impl UsageSet {
    /// Whether the list behind the set holds every key once.
    pub closed spec fn wf(&self) -> bool {
        self.keys@.no_duplicates()
    }

    /// Number of keys in the set.
    pub closed spec fn spec_len(&self) -> nat {
        self.keys@.len()
    }

    /// A set is finite and, when well formed, has as many members as its
    /// list has items.
    pub proof fn lemma_len(&self)
        requires
            self.wf(),
        ensures
            self@.finite(),
            self@.len() == self.spec_len(),
    {
        self.keys@.unique_seq_to_set();
        vstd::seq_lib::seq_to_set_is_finite(self.keys@);
    }

    /// The empty set.
    pub fn new() -> (set: UsageSet)
        ensures
            set.wf(),
            set@ == Set::<GlyphonCacheKey>::empty(),
    {
        let set = UsageSet { keys: Vec::new() };
        assert(set.keys@.to_set() =~= Set::<GlyphonCacheKey>::empty());
        set
    }

    /// Number of keys in the set.
    pub fn len(&self) -> (n: usize)
        requires
            self.wf(),
        ensures
            n == self@.len(),
    {
        proof {
            self.lemma_len();
        }
        self.keys.len()
    }

    /// Whether `key` is in the set.
    pub fn contains(&self, key: &GlyphonCacheKey) -> (found: bool)
        ensures
            found == self@.contains(*key),
    {
        let mut i: usize = 0;
        while i < self.keys.len()
            invariant
                i <= self.keys.len(),
                forall|j: int| 0 <= j < i ==> self.keys@[j] != *key,
            decreases self.keys.len() - i,
        {
            if self.keys[i] == *key {
                assert(self.keys@.contains(*key));
                return true;
            }
            i += 1;
        }
        assert(!self.keys@.contains(*key));
        false
    }

    /// Adds `key` to the set and tells whether it was new.
    pub fn insert(&mut self, key: GlyphonCacheKey) -> (added: bool)
        requires
            old(self).wf(),
        ensures
            final(self).wf(),
            final(self)@ == old(self)@.insert(key),
            added == !old(self)@.contains(key),
    {
        if self.contains(&key) {
            assert(self@.insert(key) =~= self@);
            false
        } else {
            let ghost before = self.keys@;
            self.keys.push(key);
            proof {
                assert(self.keys@ == before.push(key));
                assert forall|i: int, j: int|
                    0 <= i < self.keys@.len() && 0 <= j < self.keys@.len() && i != j implies self.keys@[i]
                    != self.keys@[j] by {
                    if i < before.len() {
                        assert(before.contains(before[i]));
                    }
                    if j < before.len() {
                        assert(before.contains(before[j]));
                    }
                }
                assert forall|k: GlyphonCacheKey|
                    self.keys@.to_set().contains(k) <==> before.to_set().insert(key).contains(
                        k,
                    ) by {
                    if self.keys@.contains(k) {
                        let i = choose|i: int| 0 <= i < self.keys@.len() && self.keys@[i] == k;
                        if i < before.len() {
                            assert(before[i] == k);
                            assert(before.contains(k));
                        }
                    }
                    if before.contains(k) {
                        let i = choose|i: int| 0 <= i < before.len() && before[i] == k;
                        assert(self.keys@[i] == k);
                    }
                    if k == key {
                        assert(self.keys@[before.len() as int] == k);
                    }
                }
                assert(self.keys@.to_set() =~= before.to_set().insert(key));
            }
            true
        }
    }

    /// Empties the set.
    pub fn clear(&mut self)
        ensures
            final(self).wf(),
            final(self)@ == Set::<GlyphonCacheKey>::empty(),
    {
        self.keys.clear();
        assert(self.keys@.to_set() =~= Set::<GlyphonCacheKey>::empty());
    }
}

} // verus!
