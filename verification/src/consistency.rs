//! What the registry guarantees, against a store that keeps its word.
//!
//! The store is modelled by [`Table`]: it answers a select with the row it
//! holds, refuses an insert that would break the primary key or the unique
//! constraint on the destination, and never changes or drops a row. The cache
//! is modelled by the map of what was written to it. The statements below are
//! about the functions by which the operations decide, [`resolved`],
//! [`reversed`] and [`settled`], and about what they write to the cache.

use crate::error::RegistryError;
use crate::handlers::{
    fetched_entries, resolved, reversed, settled, settled_entries, CreationView, MAX_RETRIES,
};
use crate::slug::valid_slug_text;
use crate::store::{InsertOutcome, Lookup, Table};
use vstd::prelude::*;

verus! {

/// Whether every entry written to the cache is a row of the table: the cache
/// and the store agree wherever the cache has anything to say.
pub open spec fn coherent(entries: Map<Seq<char>, (Seq<char>, bool)>, table: Table) -> bool {
    forall|slug: Seq<char>| #[trigger]
        entries.contains_key(slug) ==> table.rows.contains_key(slug) && table.rows[slug]
            == entries[slug]
}

/// Whether `cached` can be what a lookup of `slug` served from a cache with
/// these written entries: nothing, or the entry written for the slug.
pub open spec fn served(
    entries: Map<Seq<char>, (Seq<char>, bool)>,
    slug: Seq<char>,
    cached: Option<(Seq<char>, bool)>,
) -> bool {
    cached matches Some(target) ==> entries.contains_key(slug) && entries[slug] == target
}

/// One insert as the store saw it: the row, the table before it, the answer,
/// and the table after it.
pub struct Attempt {
    pub slug: Seq<char>,
    pub url: Seq<char>,
    pub hidden: bool,
    pub before: Table,
    pub outcome: InsertOutcome,
    pub after: Table,
}

impl Attempt {
    /// Whether the store may have answered this insert as recorded.
    pub open spec fn admissible(self) -> bool {
        self.before.inserts(self.slug, self.url, self.hidden, self.outcome, self.after)
    }
}

/// Whether `attempts` can be the inserts of one creation of a link to `url`,
/// in order: each is an insert of that destination which the store may have
/// answered so, and between two of them the table only gained rows, by
/// whoever else was writing.
pub open spec fn creation_attempts(url: Seq<char>, hidden: bool, attempts: Seq<Attempt>) -> bool {
    &&& forall|k: int|
        0 <= k < attempts.len() ==> {
            &&& (#[trigger] attempts[k]).admissible()
            &&& attempts[k].url == url
            &&& attempts[k].hidden == hidden
        }
    &&& forall|j: int, k: int|
        0 <= j < k < attempts.len() ==> (#[trigger] attempts[j]).after.extended_by(
            (#[trigger] attempts[k]).before,
        )
}

/// Whether `history` can be what the store went through, insert by insert,
/// whoever made them: each insert is answered as the store may answer it, and
/// finds the table as the one before left it.
pub open spec fn store_history(history: Seq<Attempt>) -> bool {
    &&& forall|k: int| 0 <= k < history.len() ==> (#[trigger] history[k]).admissible()
    &&& forall|k: int|
        0 <= k < history.len() - 1 ==> (#[trigger] history[k]).after == history[k + 1].before
}

/// The result of a creation after the given inserts, from the `k`-th on, the
/// `k`-th being made after `k` retries: `None` while the creation is not over.
pub open spec fn creation_result_from(attempts: Seq<Attempt>, k: nat) -> Option<
    Result<Seq<char>, RegistryError>,
>
    decreases attempts.len() - k,
{
    if k >= attempts.len() {
        None
    } else {
        match settled(attempts[k as int].slug, k, attempts[k as int].outcome) {
            Some(result) => Some(result),
            None => creation_result_from(attempts, k + 1),
        }
    }
}

/// The result of a creation after the given inserts: `None` while it is not
/// over.
pub open spec fn creation_result(attempts: Seq<Attempt>) -> Option<Result<Seq<char>, RegistryError>> {
    creation_result_from(attempts, 0)
}

/// Whether the first `n` answers all report a taken slug.
pub open spec fn all_taken(attempts: Seq<Attempt>, n: nat) -> bool {
    forall|k: int| 0 <= k < n ==> (#[trigger] attempts[k]).outcome == InsertOutcome::SlugTaken
}

/// Whether `result` is how a creation with these inserts may end when its
/// destination is registered already: not with a slug. It ends in `Conflict`;
/// in `Unavailable` only where the store failed on one of the inserts; and in
/// `PkRaceExhausted` only where every candidate hit a taken slug until the
/// retries were used up. `None` stands for a creation that is not over.
pub open spec fn refused(attempts: Seq<Attempt>, result: Option<Result<Seq<char>, RegistryError>>) -> bool {
    match result {
        Some(Ok(_)) => false,
        Some(Err(error)) => {
            ||| error == RegistryError::Conflict
            ||| error == RegistryError::Unavailable && exists|k: int|
                0 <= k < attempts.len() && (#[trigger] attempts[k]).outcome
                    == InsertOutcome::Failed
            ||| error == RegistryError::PkRaceExhausted && attempts.len() > MAX_RETRIES
                && all_taken(attempts, (MAX_RETRIES + 1) as nat)
        },
        None => true,
    }
}

/// An insert never changes or removes a row, keeps destinations unique, and,
/// where it is committed, leaves exactly the inserted row under its slug.
pub proof fn law_insert_only_adds(
    table: Table,
    slug: Seq<char>,
    url: Seq<char>,
    hidden: bool,
    outcome: InsertOutcome,
    after: Table,
)
    requires
        table.inserts(slug, url, hidden, outcome, after),
    ensures
        table.extended_by(after),
        table.consistent() ==> after.consistent(),
        outcome == InsertOutcome::Committed ==> after.has_slug(slug) && after.rows[slug] == (
            url,
            hidden,
        ),
        outcome == InsertOutcome::Committed ==> !table.has_slug(slug) && !table.has_url(url),
{
    if after != table {
        assert(after == table.with_row(slug, url, hidden));
        assert(!table.has_slug(slug) && !table.has_url(url));
        if table.consistent() {
            assert forall|a: Seq<char>, b: Seq<char>, u: Seq<char>|
                #![trigger after.leads(a, u), after.leads(b, u)]
                after.leads(a, u) && after.leads(b, u) implies a == b by {
                if a != b {
                    if a == slug {
                        assert(table.leads(b, u));
                    } else if b == slug {
                        assert(table.leads(a, u));
                    } else {
                        assert(table.leads(a, u) && table.leads(b, u));
                    }
                }
            }
        }
    }
}

/// Rows that a table gained stay gained: extension is transitive.
pub proof fn law_extension_is_transitive(first: Table, second: Table, third: Table)
    requires
        first.extended_by(second),
        second.extended_by(third),
    ensures
        first.extended_by(third),
{
}

/// Where destinations are unique, the select by destination finds the slug of
/// the one row that leads there.
pub proof fn law_select_by_url_is_exact(table: Table, slug: Seq<char>, url: Seq<char>)
    requires
        table.consistent(),
        table.leads(slug, url),
    ensures
        table.by_url(url) == Lookup::Found(slug),
{
    assert(table.has_url(url));
    assert(table.leads(table.slug_of(url), url));
}

/// The cache stays in agreement with the store while the store gains rows.
pub proof fn law_extension_keeps_cache_coherent(
    entries: Map<Seq<char>, (Seq<char>, bool)>,
    table: Table,
    later: Table,
)
    requires
        coherent(entries, table),
        table.extended_by(later),
    ensures
        coherent(entries, later),
{
}

/// Resolving keeps the cache in agreement with the store: what it writes
/// after a miss is the row that the store found.
pub proof fn law_resolve_keeps_cache_coherent(
    entries: Map<Seq<char>, (Seq<char>, bool)>,
    table: Table,
    slug: Seq<char>,
    row: Lookup<(Seq<char>, bool)>,
)
    requires
        coherent(entries, table),
        row == table.by_slug(slug) || row is Failed,
    ensures
        coherent(fetched_entries(entries, slug, row), table),
{
}

/// Creating keeps the cache in agreement with the store: the cache is written
/// only with a row that the store committed, and after the commit.
pub proof fn law_create_keeps_cache_coherent(
    entries: Map<Seq<char>, (Seq<char>, bool)>,
    table: Table,
    creation: CreationView,
    outcome: InsertOutcome,
    after: Table,
)
    requires
        coherent(entries, table),
        table.inserts(creation.slug, creation.url, creation.hidden, outcome, after),
    ensures
        coherent(settled_entries(entries, creation, outcome), after),
        outcome != InsertOutcome::Committed ==> settled_entries(entries, creation, outcome)
            == entries,
{
    law_insert_only_adds(table, creation.slug, creation.url, creation.hidden, outcome, after);
}

/// Cache and store agree on every link that was created: once a creation has
/// returned a slug, resolving that slug gives the destination and the
/// visibility flag of the creation, whether the cache serves the answer or the
/// store does, for as long as the store answers.
pub proof fn law_created_link_resolves(
    creation: CreationView,
    before: Table,
    outcome: InsertOutcome,
    after: Table,
    slug: Seq<char>,
    later: Table,
    entries: Map<Seq<char>, (Seq<char>, bool)>,
    cached: Option<(Seq<char>, bool)>,
)
    requires
        before.inserts(creation.slug, creation.url, creation.hidden, outcome, after),
        settled(creation.slug, creation.retries, outcome) == Some(
            Ok::<Seq<char>, RegistryError>(slug),
        ),
        after.extended_by(later),
        coherent(entries, later),
        served(entries, slug, cached),
    ensures
        slug == creation.slug,
        resolved(cached, later.by_slug(slug)) == Ok::<(Seq<char>, bool), RegistryError>(
            (creation.url, creation.hidden),
        ),
{
    law_insert_only_adds(before, creation.slug, creation.url, creation.hidden, outcome, after);
    assert(later.rows.contains_key(slug) && later.rows[slug] == (creation.url, creation.hidden));
}

/// A destination is never given a second slug: an insert of a registered
/// destination is not committed and leaves the table as it was, and the
/// creation does not return a slug for it. Where the store reports the taken
/// destination, the creation ends in `Conflict` at once, however many retries
/// are left.
pub proof fn law_registered_url_is_refused(
    table: Table,
    slug: Seq<char>,
    url: Seq<char>,
    hidden: bool,
    retries: nat,
    outcome: InsertOutcome,
    after: Table,
)
    requires
        table.has_url(url),
        table.inserts(slug, url, hidden, outcome, after),
    ensures
        outcome != InsertOutcome::Committed,
        after == table,
        !(settled(slug, retries, outcome) matches Some(Ok(_))),
        outcome == InsertOutcome::UrlTaken ==> settled(slug, retries, outcome) == Some(
            Err::<Seq<char>, RegistryError>(RegistryError::Conflict),
        ),
        !table.has_slug(slug) && outcome != InsertOutcome::Failed ==> outcome
            == InsertOutcome::UrlTaken,
{
}

/// A second creation of a registered destination, taken as a whole: whatever
/// candidates it draws and whoever else writes meanwhile, it never returns a
/// slug. It ends in `Conflict`, unless the store failed on the way, or every
/// candidate hit a taken slug until the retries were used up.
pub proof fn law_second_create_conflicts(url: Seq<char>, hidden: bool, attempts: Seq<Attempt>)
    requires
        creation_attempts(url, hidden, attempts),
        attempts.len() > 0,
        attempts[0].before.has_url(url),
    ensures
        refused(attempts, creation_result(attempts)),
{
    lemma_second_create_from(url, hidden, attempts, 0);
}

proof fn lemma_second_create_from(url: Seq<char>, hidden: bool, attempts: Seq<Attempt>, k: nat)
    requires
        creation_attempts(url, hidden, attempts),
        attempts.len() > 0,
        attempts[0].before.has_url(url),
        all_taken(attempts, k),
        k <= attempts.len(),
    ensures
        refused(attempts, creation_result_from(attempts, k)),
    decreases attempts.len() - k,
{
    if k < attempts.len() {
        let attempt = attempts[k as int];
        assert(attempt.admissible());
        // The destination is still registered when this insert is made.
        assert(attempt.before.has_url(url)) by {
            let first = attempts[0];
            let holder = first.before.slug_of(url);
            assert(first.before.leads(holder, url));
            if k > 0 {
                assert(first.admissible());
                law_insert_only_adds(
                    first.before,
                    first.slug,
                    first.url,
                    first.hidden,
                    first.outcome,
                    first.after,
                );
                assert(first.after.extended_by(attempt.before));
                assert(attempt.before.leads(holder, url));
            }
        }
        match settled(attempt.slug, k, attempt.outcome) {
            Some(result) => {
                if attempt.outcome == InsertOutcome::SlugTaken {
                    assert(k >= MAX_RETRIES);
                    assert(all_taken(attempts, (MAX_RETRIES + 1) as nat)) by {
                        assert forall|j: int| 0 <= j < MAX_RETRIES + 1 implies (
                        #[trigger] attempts[j]).outcome == InsertOutcome::SlugTaken by {
                            if j < k {
                            } else {
                                assert(j == k);
                            }
                        }
                    }
                }
            },
            None => {
                assert(all_taken(attempts, k + 1)) by {
                    assert forall|j: int| 0 <= j < k + 1 implies (#[trigger] attempts[j]).outcome
                        == InsertOutcome::SlugTaken by {
                        if j < k {
                        }
                    }
                }
                lemma_second_create_from(url, hidden, attempts, k + 1);
            },
        }
    }
}

/// Resolving a slug that the store does not hold is `NotFound`, and leaves the
/// cache without an entry for it: the cache cannot serve it, and nothing is
/// written after the store answered that no row matches.
pub proof fn law_unknown_slug_is_not_found(
    entries: Map<Seq<char>, (Seq<char>, bool)>,
    table: Table,
    slug: Seq<char>,
    cached: Option<(Seq<char>, bool)>,
)
    requires
        coherent(entries, table),
        !table.has_slug(slug),
        served(entries, slug, cached),
    ensures
        cached is None,
        resolved(cached, table.by_slug(slug)) == Err::<(Seq<char>, bool), RegistryError>(
            RegistryError::NotFound,
        ),
        fetched_entries(entries, slug, table.by_slug(slug)) == entries,
        !entries.contains_key(slug),
{
}

/// A candidate that is new to the store, for a destination that is new to it,
/// is committed, unless the store fails.
pub proof fn law_fresh_candidate_commits(
    table: Table,
    slug: Seq<char>,
    url: Seq<char>,
    hidden: bool,
    outcome: InsertOutcome,
    after: Table,
)
    requires
        table.inserts(slug, url, hidden, outcome, after),
        !table.has_slug(slug),
        !table.has_url(url),
        outcome != InsertOutcome::Failed,
    ensures
        outcome == InsertOutcome::Committed,
        after.has_slug(slug),
{
}

/// Collisions are retried within the bound: a creation whose first `taken`
/// candidates hit taken slugs, and whose next insert is answered otherwise,
/// ends with what that insert comes to as long as `taken` is at most
/// `MAX_RETRIES`; that is the candidate's slug where the insert is committed.
/// With more collisions than the bound allows, the creation ends in
/// `PkRaceExhausted`.
pub proof fn law_collisions_are_retried(attempts: Seq<Attempt>, taken: nat)
    requires
        taken < attempts.len(),
        all_taken(attempts, taken),
        attempts[taken as int].outcome != InsertOutcome::SlugTaken || taken >= MAX_RETRIES,
    ensures
        taken <= MAX_RETRIES ==> creation_result(attempts) == settled(
            attempts[taken as int].slug,
            taken,
            attempts[taken as int].outcome,
        ),
        taken <= MAX_RETRIES && attempts[taken as int].outcome == InsertOutcome::Committed
            ==> creation_result(attempts) == Some(
            Ok::<Seq<char>, RegistryError>(attempts[taken as int].slug),
        ),
        taken > MAX_RETRIES ==> creation_result(attempts) == Some(
            Err::<Seq<char>, RegistryError>(RegistryError::PkRaceExhausted),
        ),
{
    lemma_collisions_from(attempts, taken, 0);
}

proof fn lemma_collisions_from(attempts: Seq<Attempt>, taken: nat, k: nat)
    requires
        taken < attempts.len(),
        all_taken(attempts, taken),
        attempts[taken as int].outcome != InsertOutcome::SlugTaken || taken >= MAX_RETRIES,
        k <= taken,
        k <= MAX_RETRIES,
    ensures
        taken <= MAX_RETRIES ==> creation_result_from(attempts, k) == settled(
            attempts[taken as int].slug,
            taken,
            attempts[taken as int].outcome,
        ),
        taken > MAX_RETRIES ==> creation_result_from(attempts, k) == Some(
            Err::<Seq<char>, RegistryError>(RegistryError::PkRaceExhausted),
        ),
    decreases taken - k,
{
    if k < taken {
        assert(attempts[k as int].outcome == InsertOutcome::SlugTaken);
        if k < MAX_RETRIES {
            lemma_collisions_from(attempts, taken, k + 1);
        }
    }
}

/// A creation is over after `MAX_RETRIES + 1` inserts at the latest.
pub proof fn law_creation_is_bounded(attempts: Seq<Attempt>)
    requires
        attempts.len() > MAX_RETRIES,
    ensures
        creation_result(attempts) is Some,
{
    lemma_bounded_from(attempts, 0);
}

proof fn lemma_bounded_from(attempts: Seq<Attempt>, k: nat)
    requires
        attempts.len() > MAX_RETRIES,
        k <= MAX_RETRIES,
    ensures
        creation_result_from(attempts, k) is Some,
    decreases MAX_RETRIES - k,
{
    if settled(attempts[k as int].slug, k, attempts[k as int].outcome) is None {
        lemma_bounded_from(attempts, k + 1);
    }
}

/// No two creations are given the same slug, nor the same destination: of all
/// the inserts that the store went through, whoever made them and in whatever
/// order they arrived, any two that were committed differ in both.
pub proof fn law_commits_are_distinct(history: Seq<Attempt>, i: int, j: int)
    requires
        store_history(history),
        0 <= i < j < history.len(),
        history[i].outcome == InsertOutcome::Committed,
        history[j].outcome == InsertOutcome::Committed,
    ensures
        history[i].slug != history[j].slug,
        history[i].url != history[j].url,
{
    let first = history[i];
    assert(first.admissible());
    law_insert_only_adds(first.before, first.slug, first.url, first.hidden, first.outcome, first.after);
    assert(first.after.leads(first.slug, first.url));
    lemma_history_extends(history, i, j);
    let second = history[j];
    assert(second.admissible());
    assert(second.before.leads(first.slug, first.url));
    assert(second.before.has_url(first.url));
}

/// Over a history of the store, the table only gains rows.
proof fn lemma_history_extends(history: Seq<Attempt>, i: int, j: int)
    requires
        store_history(history),
        0 <= i < j < history.len(),
    ensures
        history[i].after.extended_by(history[j].before),
    decreases j - i,
{
    if j == i + 1 {
        assert(history[i].after == history[i + 1].before);
    } else {
        lemma_history_extends(history, i, j - 1);
        let previous = history[j - 1];
        assert(previous.admissible());
        law_insert_only_adds(
            previous.before,
            previous.slug,
            previous.url,
            previous.hidden,
            previous.outcome,
            previous.after,
        );
        assert(history[j - 1].after == history[j - 1 + 1].before);
    }
}

/// A reverse lookup of a created link's destination returns the slug that the
/// creation returned, for as long as the store answers.
pub proof fn law_reverse_finds_created(
    creation: CreationView,
    before: Table,
    outcome: InsertOutcome,
    after: Table,
    slug: Seq<char>,
    later: Table,
)
    requires
        valid_slug_text(creation.slug),
        before.inserts(creation.slug, creation.url, creation.hidden, outcome, after),
        settled(creation.slug, creation.retries, outcome) == Some(
            Ok::<Seq<char>, RegistryError>(slug),
        ),
        after.extended_by(later),
        later.consistent(),
    ensures
        later.by_url(creation.url) == Lookup::Found(slug),
        reversed(later.by_url(creation.url)) == Ok::<Seq<char>, RegistryError>(slug),
{
    law_insert_only_adds(before, creation.slug, creation.url, creation.hidden, outcome, after);
    assert(later.leads(slug, creation.url));
    law_select_by_url_is_exact(later, slug, creation.url);
}

} // verus!
