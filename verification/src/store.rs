//! The durable store as the registry sees it.
//!
//! The store itself is a relational table `links(slug PRIMARY KEY, url UNIQUE,
//! hidden)` behind a connection pool, and talking to it is the caller's work.
//! This module holds the answers that the registry acts on, the reading of an
//! insert failure by the constraint that fired, and a mathematical model of
//! the table against which the registry's guarantees are stated.

use crate::slug::Slug;
use crate::text::same_text;
use vstd::prelude::*;

verus! {

/// `sqlx::Error`, carried as an opaque value.
#[verifier::external_type_specification]
#[verifier::external_body]
pub struct ExSqlxError(sqlx::Error);

/// One row of the table: the durable record of a link.
#[derive(Clone, Debug, PartialEq, Eq)]
pub struct Link {
    pub slug: Slug,
    pub url: String,
    pub hidden: bool,
}

/// The answer of the store to a point select.
#[derive(Clone, Debug, PartialEq, Eq)]
pub enum Lookup<T> {
    /// The row exists; this is what was selected from it.
    Found(T),
    /// No row matches.
    Absent,
    /// The store could not be asked, or failed while answering.
    Failed,
}

/// The answer of the store to the insert of one row.
#[derive(Clone, Copy, Debug, PartialEq, Eq, Structural)]
pub enum InsertOutcome {
    /// The row is committed.
    Committed,
    /// The primary key refused the row: the slug exists already.
    SlugTaken,
    /// The unique constraint on `url` refused the row: the destination is
    /// registered under another slug.
    UrlTaken,
    /// Any other failure.
    Failed,
}

/// What a fetch of at most one row amounts to.
pub open spec fn lookup_of<T>(fetched: Result<Option<T>, sqlx::Error>) -> Lookup<T> {
    match fetched {
        Ok(Some(row)) => Lookup::Found(row),
        Ok(None) => Lookup::Absent,
        Err(_) => Lookup::Failed,
    }
}

/// How an insert failure reads, given the name of the constraint that the
/// store reported, if any.
pub open spec fn constraint_outcome(name: Option<Seq<char>>) -> InsertOutcome {
    match name {
        Some(n) => if n == "links_pkey"@ {
            InsertOutcome::SlugTaken
        } else if n == "links_url_key"@ {
            InsertOutcome::UrlTaken
        } else {
            InsertOutcome::Failed
        },
        None => InsertOutcome::Failed,
    }
}

/// The characters of an optional string slice.
pub open spec fn name_text(name: Option<&str>) -> Option<Seq<char>> {
    match name {
        Some(n) => Some(n@),
        None => None,
    }
}

/// The characters of an optional string.
pub open spec fn owned_text(name: Option<String>) -> Option<Seq<char>> {
    match name {
        Some(n) => Some(n@),
        None => None,
    }
}

/// The name of the constraint that an error reports: the one that the
/// database named when it refused a statement, or `None` where the error did
/// not come from the database or names no constraint.
pub uninterp spec fn reported_constraint(error: sqlx::Error) -> Option<Seq<char>>;

/// `sqlx::Error::as_database_error` followed by `DatabaseError::constraint`:
/// the name of the constraint that the error reports, copied out of it.
#[verifier::external_body]
fn violated_constraint(error: &sqlx::Error) -> (name: Option<String>)
    ensures
        owned_text(name) == reported_constraint(*error),
{
    error.as_database_error().and_then(|e| e.constraint()).map(|name| name.to_owned())
}

impl<T> Lookup<T> {
    /// Reads the result of fetching at most one row.
    pub fn from_fetch(fetched: Result<Option<T>, sqlx::Error>) -> (answer: Lookup<T>)
        ensures
            answer == lookup_of(fetched),
    {
        match fetched {
            Ok(Some(row)) => Lookup::Found(row),
            Ok(None) => Lookup::Absent,
            Err(_) => Lookup::Failed,
        }
    }
}

impl InsertOutcome {
    /// Reads an insert failure by the name of the violated constraint:
    /// `links_pkey` is a taken slug, `links_url_key` a taken URL, and anything
    /// else, or no name at all, a failure of the store.
    pub fn from_constraint(name: Option<&str>) -> (outcome: InsertOutcome)
        ensures
            outcome == constraint_outcome(name_text(name)),
    {
        match name {
            Some(n) => {
                if same_text(n, "links_pkey") {
                    InsertOutcome::SlugTaken
                } else if same_text(n, "links_url_key") {
                    InsertOutcome::UrlTaken
                } else {
                    InsertOutcome::Failed
                }
            },
            None => InsertOutcome::Failed,
        }
    }

    /// Reads the error of a failed insert by the constraint that it reports,
    /// as [`Self::from_constraint`] reads the name: a taken slug, a taken URL,
    /// or a failure of the store. It is never `Committed`.
    pub fn from_error(error: &sqlx::Error) -> (outcome: InsertOutcome)
        ensures
            outcome == constraint_outcome(reported_constraint(*error)),
            outcome != InsertOutcome::Committed,
    {
        match violated_constraint(error) {
            Some(name) => InsertOutcome::from_constraint(Some(name.as_str())),
            None => InsertOutcome::from_constraint(None),
        }
    }

    /// Reads the result of executing an insert: `Committed` where it went
    /// through, and else what [`Self::from_error`] reads from the error.
    pub fn from_execute(executed: &Result<(), sqlx::Error>) -> (outcome: InsertOutcome)
        ensures
            executed is Ok <==> outcome == InsertOutcome::Committed,
            executed matches Err(error) ==> outcome == constraint_outcome(
                reported_constraint(*error),
            ),
    {
        match executed {
            Ok(_) => InsertOutcome::Committed,
            Err(error) => InsertOutcome::from_error(error),
        }
    }
}

/// The table of links as a mathematical value: for each slug that has a row,
/// the destination and the visibility flag of that row.
pub struct Table {
    pub rows: Map<Seq<char>, (Seq<char>, bool)>,
}

impl Table {
    /// Whether a row has this slug.
    pub open spec fn has_slug(self, slug: Seq<char>) -> bool {
        self.rows.contains_key(slug)
    }

    /// Whether the row of `slug` leads to `url`.
    pub open spec fn leads(self, slug: Seq<char>, url: Seq<char>) -> bool {
        self.rows.contains_key(slug) && self.rows[slug].0 == url
    }

    /// Whether a row has this destination.
    pub open spec fn has_url(self, url: Seq<char>) -> bool {
        exists|slug: Seq<char>| self.leads(slug, url)
    }

    /// A slug whose row has this destination, where there is one.
    pub open spec fn slug_of(self, url: Seq<char>) -> Seq<char> {
        choose|slug: Seq<char>| self.leads(slug, url)
    }

    /// The unique constraint on `url`: no two rows share a destination. The
    /// primary key needs no statement, since the rows are keyed by slug.
    pub open spec fn consistent(self) -> bool {
        forall|a: Seq<char>, b: Seq<char>, url: Seq<char>|
            #![trigger self.leads(a, url), self.leads(b, url)]
            self.leads(a, url) && self.leads(b, url) ==> a == b
    }

    /// The point select by slug, answered.
    pub open spec fn by_slug(self, slug: Seq<char>) -> Lookup<(Seq<char>, bool)> {
        if self.has_slug(slug) {
            Lookup::Found(self.rows[slug])
        } else {
            Lookup::Absent
        }
    }

    /// The point select by destination, answered.
    pub open spec fn by_url(self, url: Seq<char>) -> Lookup<Seq<char>> {
        if self.has_url(url) {
            Lookup::Found(self.slug_of(url))
        } else {
            Lookup::Absent
        }
    }

    /// The table with one more row.
    pub open spec fn with_row(self, slug: Seq<char>, url: Seq<char>, hidden: bool) -> Table {
        Table { rows: self.rows.insert(slug, (url, hidden)) }
    }

    /// Whether `later` holds every row of this table unchanged: rows are never
    /// updated and never deleted.
    pub open spec fn extended_by(self, later: Table) -> bool {
        forall|slug: Seq<char>| #[trigger]
            self.rows.contains_key(slug) ==> later.rows.contains_key(slug) && later.rows[slug]
                == self.rows[slug]
    }

    /// Whether the store may answer the insert of `(slug, url, hidden)` into
    /// this table with `outcome`, leaving the table `after`.
    ///
    /// A row is committed only when neither constraint is violated. A conflict
    /// is reported only for a constraint that is violated, and leaves the table
    /// as it was; when both are violated the store may report either. After
    /// any other failure the row is either fully there or not at all.
    pub open spec fn inserts(
        self,
        slug: Seq<char>,
        url: Seq<char>,
        hidden: bool,
        outcome: InsertOutcome,
        after: Table,
    ) -> bool {
        match outcome {
            InsertOutcome::Committed => !self.has_slug(slug) && !self.has_url(url) && after
                == self.with_row(slug, url, hidden),
            InsertOutcome::SlugTaken => self.has_slug(slug) && after == self,
            InsertOutcome::UrlTaken => self.has_url(url) && after == self,
            InsertOutcome::Failed => after == self || (!self.has_slug(slug) && !self.has_url(url)
                && after == self.with_row(slug, url, hidden)),
        }
    }
}

} // verus!
