//! The operations of the link registry: resolve, reverse lookup and create.
//!
//! Each operation is cut where it has to wait for the durable store. The
//! caller sends the query and hands the store's answer to the next step, so
//! that no step ever blocks, and every step is an ordinary function from the
//! state and the answer to the result. The cache is only ever written from a
//! row that the store confirmed: after a read that found it, or after an
//! insert that was committed.

pub mod shared;

pub use self::shared::Shared;

use crate::error::RegistryError;
use crate::metrics::{ends_with, label_pairs, Labels};
use crate::slug::{valid_slug_text, Slug};
use crate::store::{InsertOutcome, Link, Lookup};
use rand::rngs::StdRng;
use vstd::prelude::*;
use vstd::string::StringExecFns;

verus! {

/// How often a creation draws a new candidate after its slug was taken.
pub const MAX_RETRIES: u8 = 2;

/// Where a slug leads: the destination and whether the link is hidden. A
/// hidden link is to be answered with a page that redirects on the client's
/// side, so that the destination is kept from intermediaries.
#[derive(Clone, Debug, PartialEq, Eq)]
pub struct RedirectTarget {
    pub url: String,
    pub hidden: bool,
}

impl View for RedirectTarget {
    type V = (Seq<char>, bool);

    open spec fn view(&self) -> (Seq<char>, bool) {
        (self.url@, self.hidden)
    }
}

/// What the transport answers a resolved slug with.
#[derive(Clone, Debug, PartialEq, Eq)]
pub enum Redirection {
    /// A permanent redirect at protocol level, to this location.
    Permanent(String),
    /// A page with this HTML body, whose script sends the client on.
    Page(String),
}

/// The first step of resolving: what the cache had.
#[derive(Clone, Debug, PartialEq, Eq)]
pub enum Resolution {
    /// The cache served the target; the store is not asked.
    Hit(RedirectTarget),
    /// The cache had nothing; the store is to be asked for the row of the slug.
    Miss,
}

/// A link on its way into the store: the row to insert next, and how many
/// candidates were given up before it.
#[derive(Debug)]
pub struct Creation {
    link: Link,
    retries: u8,
}

/// A `Creation` as a mathematical value.
pub struct CreationView {
    pub slug: Seq<char>,
    pub url: Seq<char>,
    pub hidden: bool,
    pub retries: nat,
}

/// The next step of a creation, once the store has answered an insert.
#[derive(Debug)]
pub enum Step {
    /// The slug was taken: this row, with a new candidate, is to be inserted.
    Insert(Creation),
    /// The creation is over, with its slug or with an error.
    Done(Result<Slug, RegistryError>),
}

/// The answer to a select of a target, with each string as its characters.
pub open spec fn target_lookup(row: Lookup<RedirectTarget>) -> Lookup<(Seq<char>, bool)> {
    match row {
        Lookup::Found(target) => Lookup::Found(target@),
        Lookup::Absent => Lookup::Absent,
        Lookup::Failed => Lookup::Failed,
    }
}

/// The answer to a select of a slug's text, as characters.
pub open spec fn text_lookup(found: Lookup<String>) -> Lookup<Seq<char>> {
    match found {
        Lookup::Found(text) => Lookup::Found(text@),
        Lookup::Absent => Lookup::Absent,
        Lookup::Failed => Lookup::Failed,
    }
}

/// The result of resolving, with the target as a mathematical value.
pub open spec fn target_result(result: Result<RedirectTarget, RegistryError>) -> Result<
    (Seq<char>, bool),
    RegistryError,
> {
    match result {
        Ok(target) => Ok(target@),
        Err(error) => Err(error),
    }
}

/// A result that holds a slug, with the slug as its characters.
pub open spec fn slug_result(result: Result<Slug, RegistryError>) -> Result<Seq<char>, RegistryError> {
    match result {
        Ok(slug) => Ok(slug@),
        Err(error) => Err(error),
    }
}

/// The slug of a result, if it has one.
pub open spec fn known_slug(result: Result<Seq<char>, RegistryError>) -> Option<Seq<char>> {
    match result {
        Ok(slug) => Some(slug),
        Err(_) => None,
    }
}

/// What resolving returns after a cache miss, for each answer of the store: a
/// row that was found is the target, no row is `NotFound`, and a store that
/// failed is `Unavailable`, never taken for a missing row.
pub open spec fn fetched_result(row: Lookup<(Seq<char>, bool)>) -> Result<
    (Seq<char>, bool),
    RegistryError,
> {
    match row {
        Lookup::Found(target) => Ok(target),
        Lookup::Absent => Err(RegistryError::NotFound),
        Lookup::Failed => Err(RegistryError::Unavailable),
    }
}

/// What resolving writes to the cache after a miss: the row that the store
/// found, and nothing otherwise.
pub open spec fn fetched_entries(
    entries: Map<Seq<char>, (Seq<char>, bool)>,
    slug: Seq<char>,
    row: Lookup<(Seq<char>, bool)>,
) -> Map<Seq<char>, (Seq<char>, bool)> {
    match row {
        Lookup::Found(target) => entries.insert(slug, target),
        _ => entries,
    }
}

/// What resolving returns, given what the cache served and, where it served
/// nothing, what the store answered.
pub open spec fn resolved(cached: Option<(Seq<char>, bool)>, row: Lookup<(Seq<char>, bool)>) -> Result<
    (Seq<char>, bool),
    RegistryError,
> {
    match cached {
        Some(target) => Ok(target),
        None => fetched_result(row),
    }
}

/// What a reverse lookup returns for each answer of the store. The store is
/// trusted to hold slugs only; should it hand back text that is no slug, that
/// is a failure of the store like any other.
pub open spec fn reversed(found: Lookup<Seq<char>>) -> Result<Seq<char>, RegistryError> {
    match found {
        Lookup::Found(text) => if valid_slug_text(text) {
            Ok(text)
        } else {
            Err(RegistryError::Unavailable)
        },
        Lookup::Absent => Err(RegistryError::NotFound),
        Lookup::Failed => Err(RegistryError::Unavailable),
    }
}

/// How a creation goes on after the store answered the insert of its
/// candidate `slug`, `retries` candidates having been given up before: `None`
/// where a new candidate is to be drawn, else the result of the creation.
///
/// A taken slug is an expected race and is retried, up to `MAX_RETRIES` times.
/// A taken URL is the caller's error and ends the creation at once. Any other
/// failure ends it too.
pub open spec fn settled(slug: Seq<char>, retries: nat, outcome: InsertOutcome) -> Option<
    Result<Seq<char>, RegistryError>,
> {
    match outcome {
        InsertOutcome::Committed => Some(Ok(slug)),
        InsertOutcome::SlugTaken => if retries < MAX_RETRIES {
            None
        } else {
            Some(Err(RegistryError::PkRaceExhausted))
        },
        InsertOutcome::UrlTaken => Some(Err(RegistryError::Conflict)),
        InsertOutcome::Failed => Some(Err(RegistryError::Unavailable)),
    }
}

/// What a creation writes to the cache after the store answered: the row that
/// was committed, and nothing otherwise.
pub open spec fn settled_entries(
    entries: Map<Seq<char>, (Seq<char>, bool)>,
    creation: CreationView,
    outcome: InsertOutcome,
) -> Map<Seq<char>, (Seq<char>, bool)> {
    match outcome {
        InsertOutcome::Committed => entries.insert(creation.slug, (creation.url, creation.hidden)),
        _ => entries,
    }
}

/// The body of the page that sends a client on to `url`.
pub open spec fn redirect_page(url: Seq<char>) -> Seq<char> {
    "<html><body><script>window.location.href='"@ + url + "';</script></body></html>"@
}

/// The short link of a slug on a host.
pub open spec fn link_text(host: Seq<char>, slug: Seq<char>) -> Seq<char> {
    "http://"@ + host + "/"@ + slug
}

/// The serialization that `url::Url::parse` gives to a text, or `None` where it
/// refuses the text as a URL.
pub uninterp spec fn url_serialization(text: Seq<char>) -> Option<Seq<char>>;

/// `url::Url::parse`, with the parsed URL turned back into its serialization.
#[verifier::external_body]
fn url_parse(text: &str) -> (parsed: Option<String>)
    ensures
        parsed is Some <==> url_serialization(text@) is Some,
        parsed matches Some(url) ==> Some(url@) == url_serialization(text@),
{
    url::Url::parse(text).ok().map(|parsed| String::from(parsed))
}

impl Creation {
    #[verifier::type_invariant]
    closed spec fn bounded(self) -> bool {
        self.retries <= MAX_RETRIES
    }

    /// The creation as a mathematical value.
    pub closed spec fn view(&self) -> CreationView {
        CreationView {
            slug: self.link.slug@,
            url: self.link.url@,
            hidden: self.link.hidden,
            retries: self.retries as nat,
        }
    }

    /// Starts a creation with its first candidate.
    pub fn begin(candidate: Slug, url: String, hidden: bool) -> (creation: Creation)
        ensures
            creation@ == (CreationView { slug: candidate@, url: url@, hidden, retries: 0 }),
    {
        Creation { link: Link { slug: candidate, url, hidden }, retries: 0 }
    }

    /// The row that is to be inserted.
    pub fn link(&self) -> (link: &Link)
        ensures
            link.slug@ == self@.slug,
            link.url@ == self@.url,
            link.hidden == self@.hidden,
    {
        &self.link
    }

    /// How many candidates were given up so far.
    pub fn retries(&self) -> (retries: u8)
        ensures
            retries == self@.retries,
            retries <= MAX_RETRIES,
    {
        proof {
            use_type_invariant(self);
        }
        self.retries
    }

    /// Goes on with a new candidate, after the slug was taken.
    pub fn retry(self, candidate: Slug) -> (next: Creation)
        requires
            self@.retries < MAX_RETRIES,
        ensures
            next@ == (CreationView {
                slug: candidate@,
                url: self@.url,
                hidden: self@.hidden,
                retries: self@.retries + 1,
            }),
    {
        Creation {
            link: Link { slug: candidate, url: self.link.url, hidden: self.link.hidden },
            retries: self.retries + 1,
        }
    }

    /// Decides how the creation goes on after the store answered the insert of
    /// its row. Where the row was committed it is written to the cache; the
    /// cache is written in no other case. A creation that is over is counted
    /// as a request, under its slug where it has one.
    pub fn settle(&self, shared: &mut Shared, outcome: InsertOutcome) -> (decided: Option<
        Result<Slug, RegistryError>,
    >)
        ensures
            match decided {
                Some(result) => {
                    &&& settled(self@.slug, self@.retries, outcome) == Some(slug_result(result))
                    &&& final(shared).requests() == old(shared).requests().insert(
                        label_pairs("generate"@, known_slug(slug_result(result))),
                    )
                },
                None => {
                    &&& settled(self@.slug, self@.retries, outcome) is None
                    &&& final(shared).requests() == old(shared).requests()
                },
            },
            final(shared).entries() == settled_entries(old(shared).entries(), self@, outcome),
            final(shared).hits() == old(shared).hits(),
            final(shared).misses() == old(shared).misses(),
            old(shared).same_setup(final(shared)),
    {
        let result = match outcome {
            InsertOutcome::Committed => {
                shared.remember(self.link.slug, self.link.url.clone(), self.link.hidden);
                Ok(self.link.slug)
            },
            InsertOutcome::SlugTaken => {
                if self.retries < MAX_RETRIES {
                    return None;
                }
                Err(RegistryError::PkRaceExhausted)
            },
            InsertOutcome::UrlTaken => Err(RegistryError::Conflict),
            InsertOutcome::Failed => Err(RegistryError::Unavailable),
        };
        let slug = match result {
            Ok(slug) => Some(slug),
            Err(_) => None,
        };
        shared.count_request(&Labels { handler: "generate", slug });
        Some(result)
    }
}

/// First step of resolving a slug: counts the request, whatever comes of it,
/// and asks the cache. On a hit the cached target is the answer and the store
/// is not asked. On a miss the caller selects the row of the slug from the
/// store and goes on with [`resolve_fetched`].
pub fn resolve(shared: &mut Shared, slug: Slug) -> (resolution: Resolution)
    ensures
        final(shared).requests() == old(shared).requests().insert(
            label_pairs("resolve"@, Some(slug@)),
        ),
        match resolution {
            Resolution::Hit(target) => {
                &&& old(shared).entries().contains_key(slug@)
                &&& old(shared).entries()[slug@] == target@
                &&& final(shared).hits() == old(shared).hits().insert(
                    label_pairs("resolve"@, Some(slug@)),
                )
                &&& final(shared).misses() == old(shared).misses()
            },
            Resolution::Miss => {
                &&& final(shared).hits() == old(shared).hits()
                &&& final(shared).misses() == old(shared).misses().insert(
                    label_pairs("resolve"@, Some(slug@)),
                )
            },
        },
        final(shared).entries() == old(shared).entries(),
        old(shared).same_setup(final(shared)),
{
    let cached = match shared.cached(&slug) {
        Some((url, hidden)) => Some(RedirectTarget { url, hidden }),
        None => None,
    };
    resolve_cached(shared, slug, cached)
}

/// First step of resolving a slug, given what the cache served for it: counts
/// the request, and the hit or the miss.
pub fn resolve_cached(shared: &mut Shared, slug: Slug, cached: Option<RedirectTarget>) -> (resolution:
    Resolution)
    ensures
        final(shared).requests() == old(shared).requests().insert(
            label_pairs("resolve"@, Some(slug@)),
        ),
        match cached {
            Some(target) => {
                &&& resolution matches Resolution::Hit(served)
                &&& served@ == target@
                &&& final(shared).hits() == old(shared).hits().insert(
                    label_pairs("resolve"@, Some(slug@)),
                )
                &&& final(shared).misses() == old(shared).misses()
            },
            None => {
                &&& resolution is Miss
                &&& final(shared).hits() == old(shared).hits()
                &&& final(shared).misses() == old(shared).misses().insert(
                    label_pairs("resolve"@, Some(slug@)),
                )
            },
        },
        final(shared).entries() == old(shared).entries(),
        old(shared).same_setup(final(shared)),
{
    let labels = Labels { handler: "resolve", slug: Some(slug) };
    // All requests are counted no matter their outcome.
    shared.count_request(&labels);
    match cached {
        Some(target) => {
            shared.count_hit(&labels);
            Resolution::Hit(target)
        },
        None => {
            shared.count_miss(&labels);
            Resolution::Miss
        },
    }
}

/// Second step of resolving a slug, after a cache miss: takes the store's
/// answer to the select of the slug's row. A row that was found is written to
/// the cache and returned; nothing is written otherwise.
pub fn resolve_fetched(shared: &mut Shared, slug: Slug, row: Lookup<RedirectTarget>) -> (result:
    Result<RedirectTarget, RegistryError>)
    ensures
        target_result(result) == fetched_result(target_lookup(row)),
        final(shared).entries() == fetched_entries(
            old(shared).entries(),
            slug@,
            target_lookup(row),
        ),
        final(shared).requests() == old(shared).requests(),
        final(shared).hits() == old(shared).hits(),
        final(shared).misses() == old(shared).misses(),
        old(shared).same_setup(final(shared)),
{
    match row {
        Lookup::Found(target) => {
            shared.remember(slug, target.url.clone(), target.hidden);
            Ok(target)
        },
        Lookup::Absent => Err(RegistryError::NotFound),
        Lookup::Failed => Err(RegistryError::Unavailable),
    }
}

/// What the transport answers a resolved slug with: a permanent redirect, or,
/// for a hidden link, a page that redirects on the client's side.
pub fn create_redirect(url: &str, hidden: bool) -> (redirection: Redirection)
    ensures
        match redirection {
            Redirection::Permanent(location) => !hidden && location@ == url@,
            Redirection::Page(body) => hidden && body@ == redirect_page(url@),
        },
{
    if !hidden {
        Redirection::Permanent(url.to_owned())
    } else {
        let mut body = "<html><body><script>window.location.href='".to_owned();
        body.append(url);
        body.append("';</script></body></html>");
        Redirection::Page(body)
    }
}

/// Reverse lookup, after the caller selected the slug of the URL from the
/// store. A slug that was found is returned; the request is counted, under
/// the slug where there is one. The cache is not consulted in this direction.
pub fn reverse(shared: &mut Shared, found: Lookup<String>) -> (result: Result<Slug, RegistryError>)
    ensures
        slug_result(result) == reversed(text_lookup(found)),
        final(shared).requests() == old(shared).requests().insert(
            label_pairs("reverse"@, known_slug(reversed(text_lookup(found)))),
        ),
        final(shared).entries() == old(shared).entries(),
        final(shared).hits() == old(shared).hits(),
        final(shared).misses() == old(shared).misses(),
        old(shared).same_setup(final(shared)),
{
    let result = match found {
        Lookup::Found(text) => {
            match Slug::parse(text.as_str()) {
                Ok(slug) => Ok(slug),
                Err(_) => Err(RegistryError::Unavailable),
            }
        },
        Lookup::Absent => Err(RegistryError::NotFound),
        Lookup::Failed => Err(RegistryError::Unavailable),
    };
    let slug = match result {
        Ok(slug) => Some(slug),
        Err(_) => None,
    };
    shared.count_request(&Labels { handler: "reverse", slug });
    result
}

/// Starts the creation of a link to `url`: draws the first candidate slug. The
/// caller inserts the row of the creation into the store and goes on with
/// [`generate_settled`].
pub fn generate(rng: &mut StdRng, url: String, hidden: bool) -> (creation: Creation)
    ensures
        creation@.url == url@,
        creation@.hidden == hidden,
        creation@.retries == 0,
        valid_slug_text(creation@.slug),
{
    let candidate = Slug::from_rng(rng);
    Creation::begin(candidate, url, hidden)
}

/// Starts the creation of a link to the URL that `url` is parsed to, or
/// returns `None` where the text is no URL.
pub fn register(rng: &mut StdRng, url: &str, hidden: bool) -> (creation: Option<Creation>)
    ensures
        creation is Some <==> url_serialization(url@) is Some,
        creation matches Some(started) ==> {
            &&& Some(started@.url) == url_serialization(url@)
            &&& started@.hidden == hidden
            &&& started@.retries == 0
            &&& valid_slug_text(started@.slug)
        },
{
    match url_parse(url) {
        Some(parsed) => Some(generate(rng, parsed, hidden)),
        None => None,
    }
}

/// Goes on with a creation after the store answered the insert of its row, as
/// [`Creation::settle`] decides. Where the slug was taken and a retry is left,
/// a new candidate is drawn and the row comes back for the next insert.
pub fn generate_settled(
    shared: &mut Shared,
    rng: &mut StdRng,
    creation: Creation,
    outcome: InsertOutcome,
) -> (step: Step)
    ensures
        match step {
            Step::Done(result) => {
                &&& settled(creation@.slug, creation@.retries, outcome) == Some(slug_result(result))
                &&& final(shared).requests() == old(shared).requests().insert(
                    label_pairs("generate"@, known_slug(slug_result(result))),
                )
            },
            Step::Insert(next) => {
                &&& settled(creation@.slug, creation@.retries, outcome) is None
                &&& next@.url == creation@.url
                &&& next@.hidden == creation@.hidden
                &&& next@.retries == creation@.retries + 1
                &&& valid_slug_text(next@.slug)
                &&& final(shared).requests() == old(shared).requests()
            },
        },
        final(shared).entries() == settled_entries(old(shared).entries(), creation@, outcome),
        final(shared).hits() == old(shared).hits(),
        final(shared).misses() == old(shared).misses(),
        old(shared).same_setup(final(shared)),
{
    match creation.settle(shared, outcome) {
        Some(result) => Step::Done(result),
        None => {
            let candidate = Slug::from_rng(rng);
            Step::Insert(creation.retry(candidate))
        },
    }
}

/// The short link under which a slug is reached on a host.
pub fn short_link(host: &str, slug: &Slug) -> (link: String)
    ensures
        link@ == link_text(host@, slug@),
{
    let mut link = "http://".to_owned();
    link.append(host);
    link.append("/");
    link.append(slug.as_str());
    link
}

/// What the metrics endpoint answers, given the encoder's output: the text,
/// or `Unavailable` where the encoder failed.
pub fn metrics_encoded(encoded: Option<String>) -> (result: Result<String, RegistryError>)
    ensures
        match encoded {
            Some(text) => result == Ok::<String, RegistryError>(text),
            None => result == Err::<String, RegistryError>(RegistryError::Unavailable),
        },
{
    match encoded {
        Some(text) => Ok(text),
        None => Err(RegistryError::Unavailable),
    }
}

/// A snapshot of every counter as text, for a pull endpoint. Recording is
/// never touched by it.
pub fn metrics(shared: &Shared) -> (result: Result<String, RegistryError>)
    ensures
        match result {
            Ok(text) => ends_with(text@, "# EOF\n"@),
            Err(error) => error == RegistryError::Unavailable,
        },
{
    metrics_encoded(shared.registry().encode())
}

} // verus!
