//! Baked textures shared between emitters, keyed by what they were baked
//! from.
//!
//! A gradient or a curve is reduced to a 64-bit key that identifies its
//! content; the first request for a key bakes the texture and later ones
//! reuse it.

use std::collections::HashMap;
use vstd::prelude::*;

verus! {

broadcast use vstd::std_specs::hash::group_hash_axioms;

/// Texture handles by content key.
pub struct TextureCache<H> {
    cache: HashMap<u64, H>,
}

impl<H> View for TextureCache<H> {
    type V = Map<u64, H>;

    closed spec fn view(&self) -> Map<u64, H> {
        self.cache@
    }
}

/// The cache after asking for `key`, when a missing entry is made as
/// `made`: unchanged if the key was there, else with the new entry.
pub open spec fn after_get_or_create<H>(cache: Map<u64, H>, key: u64, made: H) -> Map<u64, H> {
    if cache.contains_key(key) {
        cache
    } else {
        cache.insert(key, made)
    }
}

impl<H: Clone> TextureCache<H> {
    /// An empty cache.
    pub fn new() -> (c: Self)
        ensures
            c@ == Map::<u64, H>::empty(),
    {
        TextureCache { cache: HashMap::new() }
    }

    /// The texture baked for `key`, if there is one.
    pub fn get(&self, key: u64) -> (r: Option<H>)
        ensures
            match r {
                Some(h) => self@.contains_key(key) && cloned(self@[key], h),
                None => !self@.contains_key(key),
            },
    {
        match self.cache.get(&key) {
            Some(h) => Some(h.clone()),
            None => None,
        }
    }

    /// The texture for `key`, baked by `make` and stored when the key is
    /// new; `make` is not called when the key is already there.
    pub fn get_or_create<F: FnOnce() -> H>(&mut self, key: u64, make: F) -> (r: H)
        requires
            make.requires(()),
        ensures
            old(self)@.contains_key(key) ==> final(self)@ == old(self)@,
            !old(self)@.contains_key(key) ==> exists|made: H|
                make.ensures((), made) && final(self)@ == after_get_or_create(old(self)@, key, made),
            final(self)@.contains_key(key),
            cloned(final(self)@[key], r),
    {
        let ghost before = self@;
        match self.cache.get(&key) {
            Some(h) => {
                return h.clone();
            },
            None => {},
        }
        let made = make();
        let ghost m = made;
        let handle = made.clone();
        self.cache.insert(key, made);
        assert(make.ensures((), m) && self@ == after_get_or_create(before, key, m));
        handle
    }
}

impl<H: Clone> Default for TextureCache<H> {
    fn default() -> (c: Self)
        ensures
            c@ == Map::<u64, H>::empty(),
    {
        TextureCache::new()
    }
}

/// Asking twice for one key bakes at most once: the second request finds
/// the first one's texture and changes nothing, whatever it would make.
pub proof fn lemma_get_or_create_idempotent<H>(cache: Map<u64, H>, key: u64, first: H, second: H)
    ensures
        after_get_or_create(cache, key, first).contains_key(key),
        after_get_or_create(after_get_or_create(cache, key, first), key, second)
            == after_get_or_create(cache, key, first),
        forall|k: u64|
            k != key ==> #[trigger] after_get_or_create(cache, key, first).contains_key(k)
                == cache.contains_key(k),
{
}

} // verus!
