//! The state that every operation of the registry works on, and its builder.
//!
//! `Shared` is made once at startup and passed by reference into each request.
//! It owns the cache and the counters. The connection pool of the durable
//! store stays with the caller, who does the talking to the store; the builder
//! settles how the pool is to be made and hands that back with the finished
//! state, so that the steps of setting up are taken in order.

use crate::cache::{
    cache_build, cache_get, cache_insert, cache_limit, cache_written, nothing_written, LinkCache,
};
use crate::metrics::{metric_families, nothing_counted, Labels, Registry};
use crate::slug::Slug;
use sqlx::postgres::PgConnectOptions;
use vstd::multiset::Multiset;
use vstd::prelude::*;

verus! {

/// `sqlx::postgres::PgConnectOptions`, carried as an opaque value.
#[verifier::external_type_specification]
#[verifier::external_body]
pub struct ExPgConnectOptions(PgConnectOptions);

/// The cache capacity of the default settings.
pub const DEFAULT_CACHE_CAPACITY: u64 = 1000;

/// The greatest number of connections that the default settings allow the pool.
pub const DEFAULT_MAX_CONNECTIONS: u32 = 10;

/// How the connection pool of the store is to be made: the options to connect
/// with, and the bounds on the number of connections that the pool keeps.
pub struct PoolSettings {
    pub opts: PgConnectOptions,
    pub min_connections: u32,
    pub max_connections: u32,
}

/// The cache and the counters of one registry.
pub struct Shared {
    cache: LinkCache,
    registry: Registry,
}

impl Shared {
    /// For each slug that was written to the cache, the destination and the
    /// visibility flag written last. The cache may have dropped any of these
    /// entries since: a lookup serves an entry of this map, or misses.
    pub closed spec fn entries(&self) -> Map<Seq<char>, (Seq<char>, bool)> {
        cache_written(self.cache)
    }

    /// The greatest number of entries that the cache keeps.
    pub closed spec fn capacity(&self) -> u64 {
        cache_limit(self.cache)
    }

    /// The requests counted so far, by label pairs.
    pub closed spec fn requests(&self) -> Multiset<Seq<(Seq<char>, Seq<char>)>> {
        self.registry.requests()
    }

    /// The cache hits counted so far, by label pairs.
    pub closed spec fn hits(&self) -> Multiset<Seq<(Seq<char>, Seq<char>)>> {
        self.registry.hits()
    }

    /// The cache misses counted so far, by label pairs.
    pub closed spec fn misses(&self) -> Multiset<Seq<(Seq<char>, Seq<char>)>> {
        self.registry.misses()
    }

    /// The registered metrics, by name and help text.
    pub closed spec fn families(&self) -> Seq<(Seq<char>, Seq<char>)> {
        self.registry.families()
    }

    /// Whether `later` has the cache limit and the registered metrics of this
    /// state.
    pub open spec fn same_setup(&self, later: &Shared) -> bool {
        &&& later.capacity() == self.capacity()
        &&& later.families() == self.families()
    }

    /// Starts building a `Shared`.
    #[inline]
    pub fn builder() -> (b: Builder<Init>) {
        Builder::default()
    }

    /// Builds a `Shared` with the default cache capacity, for a pool of one to
    /// `DEFAULT_MAX_CONNECTIONS` connections made with the given options.
    pub fn default_settings(opts: PgConnectOptions) -> (made: (PoolSettings, Shared))
        ensures
            made.0 == (PoolSettings {
                opts,
                min_connections: 1,
                max_connections: DEFAULT_MAX_CONNECTIONS,
            }),
            made.1.capacity() == DEFAULT_CACHE_CAPACITY,
            made.1.is_fresh(),
    {
        let pool = PoolSettings {
            opts,
            min_connections: 1,
            max_connections: DEFAULT_MAX_CONNECTIONS,
        };
        let builder = Builder { state: HasPool { pool } };
        builder.with_max_cache_capacity(DEFAULT_CACHE_CAPACITY).build()
    }

    /// Whether nothing was cached or counted yet, and the metrics of the
    /// service are registered.
    pub open spec fn is_fresh(&self) -> bool {
        &&& self.entries() == nothing_written()
        &&& self.families() == metric_families()
        &&& self.requests() == nothing_counted()
        &&& self.hits() == nothing_counted()
        &&& self.misses() == nothing_counted()
    }

    /// The counters, for export.
    pub fn registry(&self) -> (registry: &Registry)
        ensures
            registry.requests() == self.requests(),
            registry.hits() == self.hits(),
            registry.misses() == self.misses(),
            registry.families() == self.families(),
    {
        &self.registry
    }

    /// Asks the cache for the target of a slug. Whether an entry is still held
    /// is the cache's to decide: it may have evicted any of them, so a hit is
    /// never owed, and a hit is always the entry written last for the slug.
    pub(crate) fn cached(&self, slug: &Slug) -> (found: Option<(String, bool)>)
        ensures
            found matches Some(target) ==> self.entries().contains_key(slug@)
                && self.entries()[slug@] == (target.0@, target.1),
    {
        cache_get(&self.cache, slug)
    }

    /// Writes the target of a slug to the cache.
    pub(crate) fn remember(&mut self, slug: Slug, url: String, hidden: bool)
        ensures
            final(self).entries() == old(self).entries().insert(slug@, (url@, hidden)),
            final(self).requests() == old(self).requests(),
            final(self).hits() == old(self).hits(),
            final(self).misses() == old(self).misses(),
            old(self).same_setup(final(self)),
    {
        cache_insert(&mut self.cache, slug, url, hidden);
    }

    /// Counts one request.
    pub(crate) fn count_request(&mut self, labels: &Labels)
        ensures
            final(self).requests() == old(self).requests().insert(labels.spec_pairs()),
            final(self).hits() == old(self).hits(),
            final(self).misses() == old(self).misses(),
            final(self).entries() == old(self).entries(),
            old(self).same_setup(final(self)),
    {
        self.registry.count_request(labels);
    }

    /// Counts one cache hit.
    pub(crate) fn count_hit(&mut self, labels: &Labels)
        ensures
            final(self).hits() == old(self).hits().insert(labels.spec_pairs()),
            final(self).requests() == old(self).requests(),
            final(self).misses() == old(self).misses(),
            final(self).entries() == old(self).entries(),
            old(self).same_setup(final(self)),
    {
        self.registry.count_hit(labels);
    }

    /// Counts one cache miss.
    pub(crate) fn count_miss(&mut self, labels: &Labels)
        ensures
            final(self).misses() == old(self).misses().insert(labels.spec_pairs()),
            final(self).requests() == old(self).requests(),
            final(self).hits() == old(self).hits(),
            final(self).entries() == old(self).entries(),
            old(self).same_setup(final(self)),
    {
        self.registry.count_miss(labels);
    }
}

/// A `Shared` in the making; `S` says how far it has come.
pub struct Builder<S> {
    state: S,
}

/// Nothing is set yet.
pub struct Init;

/// The pool of the store is settled.
pub struct HasPool {
    pool: PoolSettings,
}

/// The pool is settled and the cache is made.
pub struct HasCache {
    pool: PoolSettings,
    cache: LinkCache,
}

impl HasCache {
    #[verifier::type_invariant]
    closed spec fn cache_is_new(self) -> bool {
        cache_written(self.cache) == nothing_written()
    }
}

impl Default for Builder<Init> {
    fn default() -> (b: Self) {
        Builder { state: Init }
    }
}

impl Builder<Init> {
    /// Settles the pool of the store: one or two connections, made with the
    /// given options.
    #[inline]
    pub fn with_connect_opts(self, opts: PgConnectOptions) -> (b: Builder<HasPool>)
        ensures
            b.pool() == (PoolSettings { opts, min_connections: 1, max_connections: 2 }),
    {
        let pool = PoolSettings { opts, min_connections: 1, max_connections: 2 };
        Builder { state: HasPool { pool } }
    }
}

impl Builder<HasPool> {
    /// How the pool is to be made.
    pub closed spec fn pool(&self) -> PoolSettings {
        self.state.pool
    }

    /// Makes the cache, bounded by `capacity` entries.
    #[inline]
    pub fn with_max_cache_capacity(self, capacity: u64) -> (b: Builder<HasCache>)
        ensures
            b.pool() == self.pool(),
            b.capacity() == capacity,
    {
        let cache = cache_build(capacity);
        Builder { state: HasCache { pool: self.state.pool, cache } }
    }
}

impl Builder<HasCache> {
    /// How the pool is to be made.
    pub closed spec fn pool(&self) -> PoolSettings {
        self.state.pool
    }

    /// The greatest number of entries that the cache keeps.
    pub closed spec fn capacity(&self) -> u64 {
        cache_limit(self.state.cache)
    }

    /// Finishes the `Shared`: the cache that was made, with fresh counters.
    /// The settings of the pool come back with it; connecting to the store and
    /// bringing its schema up to date are the caller's next steps.
    pub fn build(self) -> (made: (PoolSettings, Shared))
        ensures
            made.0 == self.pool(),
            made.1.capacity() == self.capacity(),
            made.1.is_fresh(),
    {
        proof {
            use_type_invariant(&self.state);
        }
        let shared = Shared { cache: self.state.cache, registry: Registry::default() };
        (self.state.pool, shared)
    }
}

} // verus!
