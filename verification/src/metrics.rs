//! Counters of requests and cache outcomes.
//!
//! Every counter is keyed by the name of the operation and, where it is known,
//! by the slug. The counters live in families of `prometheus_client`, which
//! also renders them as text on demand.

use crate::slug::Slug;
use prometheus_client::metrics::counter::Counter;
use prometheus_client::metrics::family::Family;
use prometheus_client::registry::Registry as Exporter;
use vstd::multiset::Multiset;
use vstd::prelude::*;

verus! {

/// `prometheus_client::registry::Registry`, carried as an opaque value.
#[verifier::external_type_specification]
#[verifier::external_body]
pub struct ExExporter(Exporter);

/// A family of counters, one for each set of label pairs: a
/// `prometheus_client::metrics::family::Family` of `Counter`s.
#[verifier::external_body]
pub struct Counters {
    family: Family<Vec<(String, String)>, Counter>,
}

/// The increments that a family has taken so far: each set of label pairs as
/// many times as its counter was incremented.
pub uninterp spec fn counted(family: Counters) -> Multiset<Seq<(Seq<char>, Seq<char>)>>;

/// The name and the help text of each metric that was registered, in the order
/// of registration.
pub uninterp spec fn registered(registry: Exporter) -> Seq<
    (Seq<char>, Seq<char>),
>;

/// The increments of a family that never took one.
pub open spec fn nothing_counted() -> Multiset<Seq<(Seq<char>, Seq<char>)>> {
    Multiset::empty()
}

/// The registrations of a registry that never took one.
pub open spec fn nothing_registered() -> Seq<(Seq<char>, Seq<char>)> {
    Seq::empty()
}

/// Whether `text` ends with `tail`.
pub open spec fn ends_with(text: Seq<char>, tail: Seq<char>) -> bool {
    text.len() >= tail.len() && text.subrange(text.len() - tail.len(), text.len() as int) == tail
}

/// `Family::default`: a family without any counter.
#[verifier::external_body]
fn family_new() -> (family: Counters)
    ensures
        counted(family) == nothing_counted(),
{
    Counters { family: Family::default() }
}

/// `Family::get_or_create` followed by `Counter::inc`: one more increment for
/// the given set of label pairs.
#[verifier::external_body]
fn family_inc(family: &mut Counters, labels: &Vec<(String, String)>)
    ensures
        counted(*final(family)) == counted(*old(family)).insert(labels.deep_view()),
{
    family.family.get_or_create(labels).inc();
}

/// `Registry::default`: a registry without any metric.
#[verifier::external_body]
fn registry_new() -> (registry: Exporter)
    ensures
        registered(registry) == nothing_registered(),
{
    Exporter::default()
}

/// `Registry::register`: adds the family under the given name and help text,
/// after those registered before. The registry reads the family's counters
/// when it encodes; the family's increments are not touched.
#[verifier::external_body]
fn registry_register(
    registry: &mut Exporter,
    name: &str,
    help: &str,
    family: &Counters,
)
    ensures
        registered(*final(registry)) == registered(*old(registry)).push((name@, help@)),
{
    registry.register(name, help, family.family.clone());
}

/// `prometheus_client::encoding::text::encode` into a fresh `String`: the
/// OpenMetrics text of every registered metric, closed by the end-of-file line.
/// `None` stands for the formatting error that the encoder may report.
#[verifier::external_body]
fn registry_encode(registry: &Exporter) -> (text: Option<String>)
    ensures
        text matches Some(t) ==> ends_with(t@, "# EOF\n"@),
{
    let mut buffer = String::with_capacity(4096);
    match prometheus_client::encoding::text::encode(&mut buffer, registry) {
        Ok(()) => Some(buffer),
        Err(_) => None,
    }
}

/// The key of one counter: the operation and, where it is known, the slug.
#[derive(Clone, Copy, PartialEq, Eq, Hash, Debug)]
pub struct Labels {
    pub handler: &'static str,
    pub slug: Option<Slug>,
}

/// The label pairs that stand for an operation and an optional slug: the
/// operation under `handler`, the slug under `slug`, or the empty text there
/// when no slug is known.
pub open spec fn label_pairs(handler: Seq<char>, slug: Option<Seq<char>>) -> Seq<
    (Seq<char>, Seq<char>),
> {
    seq![
        ("handler"@, handler),
        (
            "slug"@,
            match slug {
                Some(text) => text,
                None => Seq::empty(),
            },
        ),
    ]
}

impl Labels {
    /// The slug of the labels, as characters.
    pub open spec fn slug_text(&self) -> Option<Seq<char>> {
        match self.slug {
            Some(slug) => Some(slug@),
            None => None,
        }
    }

    /// The label pairs that these labels stand for.
    pub open spec fn spec_pairs(&self) -> Seq<(Seq<char>, Seq<char>)> {
        label_pairs(self.handler@, self.slug_text())
    }

    /// The label pairs that these labels stand for.
    pub fn pairs(&self) -> (pairs: Vec<(String, String)>)
        ensures
            pairs.deep_view() == self.spec_pairs(),
    {
        let slug = match &self.slug {
            Some(slug) => slug.as_str().to_owned(),
            None => String::new(),
        };
        let mut pairs: Vec<(String, String)> = Vec::new();
        pairs.push(("handler".to_owned(), self.handler.to_owned()));
        pairs.push(("slug".to_owned(), slug));
        assert(pairs.deep_view() =~= self.spec_pairs());
        pairs
    }
}

/// The metrics that the registry is created with, by name and help text.
pub open spec fn metric_families() -> Seq<(Seq<char>, Seq<char>)> {
    seq![
        ("linker_http_requests"@, "Number of handled HTTP requests"@),
        ("linker_cache_hits"@, "Amount of cache hits"@),
        ("linker_cache_misses"@, "Amount of cache misses"@),
    ]
}

/// The counters of the service, registered for export.
pub struct Registry {
    registry: Exporter,
    http_requests: Counters,
    cache_hits: Counters,
    cache_misses: Counters,
}

impl Registry {
    /// The requests counted so far, by label pairs.
    pub closed spec fn requests(&self) -> Multiset<Seq<(Seq<char>, Seq<char>)>> {
        counted(self.http_requests)
    }

    /// The cache hits counted so far, by label pairs.
    pub closed spec fn hits(&self) -> Multiset<Seq<(Seq<char>, Seq<char>)>> {
        counted(self.cache_hits)
    }

    /// The cache misses counted so far, by label pairs.
    pub closed spec fn misses(&self) -> Multiset<Seq<(Seq<char>, Seq<char>)>> {
        counted(self.cache_misses)
    }

    /// The registered metrics, by name and help text.
    pub closed spec fn families(&self) -> Seq<(Seq<char>, Seq<char>)> {
        registered(self.registry)
    }

    /// Counts one request.
    pub fn count_request(&mut self, labels: &Labels)
        ensures
            final(self).requests() == old(self).requests().insert(labels.spec_pairs()),
            final(self).hits() == old(self).hits(),
            final(self).misses() == old(self).misses(),
            final(self).families() == old(self).families(),
    {
        let pairs = labels.pairs();
        family_inc(&mut self.http_requests, &pairs);
    }

    /// Counts one cache hit.
    pub fn count_hit(&mut self, labels: &Labels)
        ensures
            final(self).hits() == old(self).hits().insert(labels.spec_pairs()),
            final(self).requests() == old(self).requests(),
            final(self).misses() == old(self).misses(),
            final(self).families() == old(self).families(),
    {
        let pairs = labels.pairs();
        family_inc(&mut self.cache_hits, &pairs);
    }

    /// Counts one cache miss.
    pub fn count_miss(&mut self, labels: &Labels)
        ensures
            final(self).misses() == old(self).misses().insert(labels.spec_pairs()),
            final(self).requests() == old(self).requests(),
            final(self).hits() == old(self).hits(),
            final(self).families() == old(self).families(),
    {
        let pairs = labels.pairs();
        family_inc(&mut self.cache_misses, &pairs);
    }

    /// Renders every counter as OpenMetrics text, or `None` where the encoder
    /// reports an error. The format is the encoder's own; the text ends with
    /// its end-of-file line.
    pub fn encode(&self) -> (text: Option<String>)
        ensures
            text matches Some(t) ==> ends_with(t@, "# EOF\n"@),
    {
        registry_encode(&self.registry)
    }
}

impl Default for Registry {
    /// A registry in which the three metrics of the service are registered and
    /// nothing was counted yet.
    fn default() -> (fresh: Self)
        ensures
            fresh.families() == metric_families(),
            fresh.requests() == nothing_counted(),
            fresh.hits() == nothing_counted(),
            fresh.misses() == nothing_counted(),
    {
        let mut registry = registry_new();
        let http_requests = family_new();
        let cache_hits = family_new();
        let cache_misses = family_new();
        registry_register(
            &mut registry,
            "linker_http_requests",
            "Number of handled HTTP requests",
            &http_requests,
        );
        registry_register(&mut registry, "linker_cache_hits", "Amount of cache hits", &cache_hits);
        registry_register(
            &mut registry,
            "linker_cache_misses",
            "Amount of cache misses",
            &cache_misses,
        );
        assert(registered(registry) =~= metric_families());
        Registry { registry, http_requests, cache_hits, cache_misses }
    }
}

impl std::ops::Deref for Registry {
    type Target = Exporter;

    /// The exporter in which the metrics are registered.
    #[inline]
    fn deref(&self) -> (exporter: &Self::Target)
        ensures
            registered(*exporter) == self.families(),
    {
        &self.registry
    }
}

} // verus!
