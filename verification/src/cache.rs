//! The bounded in-memory cache in front of the durable store.
//!
//! The cache is a `moka::sync::Cache` from slug to destination and visibility
//! flag. It is an accelerator and never a source of truth: it may drop any
//! entry at any time, so what is known of it is what was written to it, and a
//! lookup either misses or serves the value written last for that slug.

use crate::slug::Slug;
use std::sync::Arc;
use vstd::prelude::*;

verus! {

/// `moka::sync::Cache`, carried as an opaque value.
#[verifier::external_type_specification]
#[verifier::external_body]
#[verifier::reject_recursive_types(K)]
#[verifier::reject_recursive_types(V)]
#[verifier::reject_recursive_types(S)]
pub struct ExMokaCache<K, V, S>(moka::sync::Cache<K, V, S>);

/// `ahash::RandomState`, carried as an opaque value.
#[verifier::external_type_specification]
#[verifier::external_body]
pub struct ExRandomState(ahash::RandomState);

/// The cache of the registry: from slug to destination and visibility flag.
pub type LinkCache = moka::sync::Cache<Slug, (Arc<str>, bool), ahash::RandomState>;

/// For each slug that was written to the cache, the target written last. The
/// cache may have dropped any of these entries since.
pub uninterp spec fn cache_written(cache: LinkCache) -> Map<Seq<char>, (Seq<char>, bool)>;

/// The greatest number of entries that the cache was built to keep.
pub uninterp spec fn cache_limit(cache: LinkCache) -> u64;

/// The writes of a cache that was never written to.
pub open spec fn nothing_written() -> Map<Seq<char>, (Seq<char>, bool)> {
    Map::empty()
}

/// `moka::sync::Cache::builder`, `CacheBuilder::max_capacity` and
/// `CacheBuilder::build_with_hasher` with a fresh `ahash::RandomState`: a cache
/// with that limit and no other setting, to which nothing was written yet.
#[verifier::external_body]
pub(crate) fn cache_build(capacity: u64) -> (cache: LinkCache)
    ensures
        cache_written(cache) == nothing_written(),
        cache_limit(cache) == capacity,
{
    moka::sync::Cache::builder().max_capacity(capacity).build_with_hasher(ahash::RandomState::new())
}

/// `moka::sync::Cache::get`: a copy of the value held for the slug, if the
/// cache still holds one. A value that comes back is the one written last for
/// that slug; a miss says nothing, since entries may have been evicted.
#[verifier::external_body]
pub(crate) fn cache_get(cache: &LinkCache, slug: &Slug) -> (found: Option<(String, bool)>)
    ensures
        found matches Some(target) ==> cache_written(*cache).contains_key(slug@) && cache_written(
            *cache,
        )[slug@] == (target.0@, target.1),
{
    cache.get(slug).map(|(url, hidden)| (String::from(&*url), hidden))
}

/// `moka::sync::Cache::insert`: writes the value for the slug, in place of any
/// value written before for it. The limit stays as it was built.
#[verifier::external_body]
pub(crate) fn cache_insert(cache: &mut LinkCache, slug: Slug, url: String, hidden: bool)
    ensures
        cache_written(*final(cache)) == cache_written(*old(cache)).insert(slug@, (url@, hidden)),
        cache_limit(*final(cache)) == cache_limit(*old(cache)),
{
    cache.insert(slug, (url.into(), hidden))
}

} // verus!
