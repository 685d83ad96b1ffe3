use linker::error::RegistryError;
use linker::handlers::{
    create_redirect, generate, generate_settled, metrics, register, resolve, resolve_cached,
    resolve_fetched, reverse, Creation, RedirectTarget, Redirection, Resolution, Shared, Step,
    MAX_RETRIES,
};
use linker::slug::Slug;
use linker::store::{InsertOutcome, Link, Lookup};
use rand::rngs::StdRng;
use rand::SeedableRng;
use sqlx::postgres::PgConnectOptions;

/// The table of links, kept in memory: slugs are unique, and so are URLs.
struct Table {
    rows: Vec<Link>,
    down: bool,
}

impl Table {
    fn new() -> Self {
        Table { rows: Vec::new(), down: false }
    }

    fn insert(&mut self, link: &Link) -> InsertOutcome {
        if self.down {
            InsertOutcome::Failed
        } else if self.rows.iter().any(|row| row.slug == link.slug) {
            InsertOutcome::SlugTaken
        } else if self.rows.iter().any(|row| row.url == link.url) {
            InsertOutcome::UrlTaken
        } else {
            self.rows.push(link.clone());
            InsertOutcome::Committed
        }
    }

    fn by_slug(&self, slug: &Slug) -> Lookup<RedirectTarget> {
        if self.down {
            return Lookup::Failed;
        }
        match self.rows.iter().find(|row| row.slug == *slug) {
            Some(row) => Lookup::Found(RedirectTarget { url: row.url.clone(), hidden: row.hidden }),
            None => Lookup::Absent,
        }
    }

    fn by_url(&self, url: &str) -> Lookup<String> {
        if self.down {
            return Lookup::Failed;
        }
        match self.rows.iter().find(|row| row.url == url) {
            Some(row) => Lookup::Found(row.slug.as_str().to_string()),
            None => Lookup::Absent,
        }
    }
}

fn fresh(capacity: u64) -> Shared {
    let (_, shared) = Shared::builder()
        .with_connect_opts(PgConnectOptions::new())
        .with_max_cache_capacity(capacity)
        .build();
    shared
}

fn create(
    shared: &mut Shared,
    rng: &mut StdRng,
    table: &mut Table,
    url: &str,
    hidden: bool,
) -> Result<Slug, RegistryError> {
    let mut creation = generate(rng, url.to_string(), hidden);
    loop {
        let outcome = table.insert(creation.link());
        match generate_settled(shared, rng, creation, outcome) {
            Step::Insert(next) => creation = next,
            Step::Done(result) => return result,
        }
    }
}

fn lookup(shared: &mut Shared, table: &Table, slug: Slug) -> Result<RedirectTarget, RegistryError> {
    match resolve(shared, slug) {
        Resolution::Hit(target) => Ok(target),
        Resolution::Miss => resolve_fetched(shared, slug, table.by_slug(&slug)),
    }
}

fn count(text: &str, family: &str, handler: &str, slug: &str) -> Option<u64> {
    let series = format!("{family}_total{{handler=\"{handler}\",slug=\"{slug}\"}} ");
    let line = text.lines().find(|line| line.starts_with(&series))?;
    line[series.len()..].parse().ok()
}

#[test]
fn created_link_resolves_and_reverses() {
    let mut shared = fresh(1000);
    let mut rng = StdRng::seed_from_u64(1);
    let mut table = Table::new();

    let slug = create(&mut shared, &mut rng, &mut table, "https://example.com/a", false).unwrap();
    assert_eq!(slug.as_str().len(), 10);
    assert!(slug.as_str().chars().all(|c| c.is_ascii_alphanumeric()));

    let target = lookup(&mut shared, &table, slug).unwrap();
    assert_eq!(target, RedirectTarget { url: "https://example.com/a".to_string(), hidden: false });
    assert_eq!(
        create_redirect(&target.url, target.hidden),
        Redirection::Permanent("https://example.com/a".to_string())
    );

    let found = reverse(&mut shared, table.by_url("https://example.com/a"));
    assert_eq!(found, Ok(slug));

    let again = create(&mut shared, &mut rng, &mut table, "https://example.com/a", true);
    assert_eq!(again, Err(RegistryError::Conflict));
    assert_eq!(table.rows.len(), 1);
    // the first link is still served as it was created
    let target = lookup(&mut shared, &table, slug).unwrap();
    assert_eq!(target, RedirectTarget { url: "https://example.com/a".to_string(), hidden: false });
}

#[test]
fn unknown_slug_is_not_found() {
    let mut shared = fresh(1000);
    let table = Table::new();
    let slug = Slug::parse("0000000000").unwrap();

    assert_eq!(resolve(&mut shared, slug), Resolution::Miss);
    assert_eq!(
        resolve_fetched(&mut shared, slug, table.by_slug(&slug)),
        Err(RegistryError::NotFound)
    );
    // nothing was cached for the slug: the next lookup misses again
    assert_eq!(resolve(&mut shared, slug), Resolution::Miss);

    let text = metrics(&shared).unwrap();
    assert_eq!(count(&text, "linker_cache_misses", "resolve", "0000000000"), Some(2));
    assert_eq!(count(&text, "linker_http_requests", "resolve", "0000000000"), Some(2));
    assert_eq!(count(&text, "linker_cache_hits", "resolve", "0000000000"), None);
}

#[test]
fn created_link_is_served_from_the_cache() {
    let mut shared = fresh(1000);
    let mut rng = StdRng::seed_from_u64(2);
    let mut table = Table::new();
    let slug = create(&mut shared, &mut rng, &mut table, "https://example.com/b", true).unwrap();

    // the store is not needed for a link that was just created
    table.down = true;
    assert_eq!(
        resolve(&mut shared, slug),
        Resolution::Hit(RedirectTarget { url: "https://example.com/b".to_string(), hidden: true })
    );
    let text = metrics(&shared).unwrap();
    assert_eq!(count(&text, "linker_cache_hits", "resolve", slug.as_str()), Some(1));
    assert_eq!(count(&text, "linker_cache_misses", "resolve", slug.as_str()), None);
    assert_eq!(count(&text, "linker_http_requests", "resolve", slug.as_str()), Some(1));
    assert_eq!(count(&text, "linker_http_requests", "generate", slug.as_str()), Some(1));
}

#[test]
fn fetched_row_is_cached() {
    let mut shared = fresh(1000);
    let slug = Slug::parse("abcdefghij").unwrap();
    let mut table = Table::new();
    table.rows.push(Link { slug, url: "https://example.com/c".to_string(), hidden: false });

    assert_eq!(resolve(&mut shared, slug), Resolution::Miss);
    let target = resolve_fetched(&mut shared, slug, table.by_slug(&slug)).unwrap();
    assert_eq!(target, RedirectTarget { url: "https://example.com/c".to_string(), hidden: false });
    assert_eq!(resolve(&mut shared, slug), Resolution::Hit(target));
    // another slug is not served by that entry
    let other = Slug::parse("abcdefghiJ").unwrap();
    assert_eq!(resolve(&mut shared, other), Resolution::Miss);
}

#[test]
fn latest_write_is_served() {
    let mut shared = fresh(1000);
    let slug = Slug::parse("abcdefghij").unwrap();
    let first = RedirectTarget { url: "https://example.com/1".to_string(), hidden: false };
    let second = RedirectTarget { url: "https://example.com/2".to_string(), hidden: true };
    assert_eq!(resolve_fetched(&mut shared, slug, Lookup::Found(first.clone())), Ok(first));
    assert_eq!(resolve_fetched(&mut shared, slug, Lookup::Found(second.clone())), Ok(second.clone()));
    assert_eq!(resolve(&mut shared, slug), Resolution::Hit(second));
}

#[test]
fn cache_without_capacity_never_hits() {
    let mut shared = fresh(0);
    let slug = Slug::parse("abcdefghij").unwrap();
    let target = RedirectTarget { url: "https://example.com/d".to_string(), hidden: false };
    assert_eq!(resolve_fetched(&mut shared, slug, Lookup::Found(target.clone())), Ok(target));
    assert_eq!(resolve(&mut shared, slug), Resolution::Miss);
}

#[test]
fn failing_store_is_unavailable_and_not_cached() {
    let mut shared = fresh(1000);
    let slug = Slug::parse("abcdefghij").unwrap();
    let mut table = Table::new();
    table.rows.push(Link { slug, url: "https://example.com/e".to_string(), hidden: false });
    table.down = true;

    assert_eq!(lookup(&mut shared, &table, slug), Err(RegistryError::Unavailable));
    assert_eq!(resolve(&mut shared, slug), Resolution::Miss);
    assert_eq!(
        reverse(&mut shared, table.by_url("https://example.com/e")),
        Err(RegistryError::Unavailable)
    );
    let mut rng = StdRng::seed_from_u64(3);
    assert_eq!(
        create(&mut shared, &mut rng, &mut table, "https://example.com/f", false),
        Err(RegistryError::Unavailable)
    );
}

#[test]
fn resolve_cached_follows_the_lookup() {
    let mut shared = fresh(1000);
    let slug = Slug::parse("abcdefghij").unwrap();
    let target = RedirectTarget { url: "https://example.com/g".to_string(), hidden: true };
    assert_eq!(
        resolve_cached(&mut shared, slug, Some(target.clone())),
        Resolution::Hit(target)
    );
    assert_eq!(resolve_cached(&mut shared, slug, None), Resolution::Miss);
    let text = metrics(&shared).unwrap();
    assert_eq!(count(&text, "linker_http_requests", "resolve", "abcdefghij"), Some(2));
    assert_eq!(count(&text, "linker_cache_hits", "resolve", "abcdefghij"), Some(1));
    assert_eq!(count(&text, "linker_cache_misses", "resolve", "abcdefghij"), Some(1));
}

#[test]
fn reverse_of_unknown_url_is_not_found() {
    let mut shared = fresh(1000);
    let table = Table::new();
    assert_eq!(
        reverse(&mut shared, table.by_url("https://example.com/none")),
        Err(RegistryError::NotFound)
    );
    let text = metrics(&shared).unwrap();
    assert_eq!(count(&text, "linker_http_requests", "reverse", ""), Some(1));
}

#[test]
fn reverse_counts_under_the_slug() {
    let mut shared = fresh(1000);
    assert_eq!(
        reverse(&mut shared, Lookup::Found("abcdefghij".to_string())),
        Ok(Slug::parse("abcdefghij").unwrap())
    );
    let text = metrics(&shared).unwrap();
    assert_eq!(count(&text, "linker_http_requests", "reverse", "abcdefghij"), Some(1));
    assert_eq!(count(&text, "linker_http_requests", "reverse", ""), None);
}

#[test]
fn reverse_takes_no_text_that_is_no_slug() {
    let mut shared = fresh(1000);
    assert_eq!(
        reverse(&mut shared, Lookup::Found("short".to_string())),
        Err(RegistryError::Unavailable)
    );
    assert_eq!(
        reverse(&mut shared, Lookup::Found("abcdefghi-".to_string())),
        Err(RegistryError::Unavailable)
    );
}

#[test]
fn reverse_does_not_touch_the_cache() {
    let mut shared = fresh(1000);
    let slug = Slug::parse("abcdefghij").unwrap();
    assert_eq!(reverse(&mut shared, Lookup::Found("abcdefghij".to_string())), Ok(slug));
    assert_eq!(resolve(&mut shared, slug), Resolution::Miss);
}

#[test]
fn duplicate_candidates_are_retried() {
    let mut shared = fresh(1000);
    let mut table = Table::new();
    // two generators that draw the same candidates
    let mut first = StdRng::seed_from_u64(99);
    let mut second = StdRng::seed_from_u64(99);

    let a = create(&mut shared, &mut first, &mut table, "https://example.com/1", false).unwrap();
    let b = create(&mut shared, &mut second, &mut table, "https://example.com/2", false).unwrap();
    assert_ne!(a, b);
    // the second creation gave up the candidate that the first had taken
    let mut replay = StdRng::seed_from_u64(99);
    assert_eq!(a, Slug::from_rng(&mut replay));
    assert_eq!(b, Slug::from_rng(&mut replay));
    assert_eq!(reverse(&mut shared, table.by_url("https://example.com/1")), Ok(a));
    assert_eq!(reverse(&mut shared, table.by_url("https://example.com/2")), Ok(b));
}

#[test]
fn interleaved_creations_get_distinct_slugs() {
    let mut shared = fresh(1000);
    let mut table = Table::new();
    let mut rngs: Vec<StdRng> = (0..4).map(|_| StdRng::seed_from_u64(5)).collect();
    let urls = ["https://example.com/w", "https://example.com/x", "https://example.com/y"];

    // every creation draws its first candidate before any of them inserts
    let mut pending: Vec<Option<Creation>> = Vec::new();
    for (rng, url) in rngs.iter_mut().zip(urls) {
        pending.push(Some(generate(rng, url.to_string(), false)));
    }
    let mut results: Vec<Option<Result<Slug, RegistryError>>> = vec![None, None, None];
    while results.iter().any(|r| r.is_none()) {
        for i in 0..3 {
            if let Some(creation) = pending[i].take() {
                let outcome = table.insert(creation.link());
                match generate_settled(&mut shared, &mut rngs[i], creation, outcome) {
                    Step::Insert(next) => pending[i] = Some(next),
                    Step::Done(result) => results[i] = Some(result),
                }
            }
        }
    }
    let slugs: Vec<Slug> = results.into_iter().map(|r| r.unwrap().unwrap()).collect();
    assert_ne!(slugs[0], slugs[1]);
    assert_ne!(slugs[0], slugs[2]);
    assert_ne!(slugs[1], slugs[2]);
    for (slug, url) in slugs.iter().zip(urls) {
        assert_eq!(lookup(&mut shared, &table, *slug).unwrap().url, url);
    }
}

#[test]
fn collisions_beyond_the_bound_exhaust_the_creation() {
    assert_eq!(MAX_RETRIES, 2);
    let mut shared = fresh(1000);
    let mut table = Table::new();
    // the store already holds every candidate that the creation will draw
    let mut replay = StdRng::seed_from_u64(11);
    for i in 0..3 {
        let slug = Slug::from_rng(&mut replay);
        table.rows.push(Link { slug, url: format!("https://example.com/{i}"), hidden: false });
    }
    let mut rng = StdRng::seed_from_u64(11);
    assert_eq!(
        create(&mut shared, &mut rng, &mut table, "https://example.com/new", false),
        Err(RegistryError::PkRaceExhausted)
    );
    assert_eq!(table.rows.len(), 3);
    // with one collision fewer the creation gets through
    table.rows.pop();
    let mut rng = StdRng::seed_from_u64(11);
    let slug = create(&mut shared, &mut rng, &mut table, "https://example.com/new", false).unwrap();
    let mut replay = StdRng::seed_from_u64(11);
    Slug::from_rng(&mut replay);
    Slug::from_rng(&mut replay);
    assert_eq!(slug, Slug::from_rng(&mut replay));
}

#[test]
fn each_answer_of_the_store_settles_a_creation() {
    let mut shared = fresh(1000);
    let first = Slug::parse("aaaaaaaaaa").unwrap();
    let second = Slug::parse("bbbbbbbbbb").unwrap();

    let creation = Creation::begin(first, "https://example.com/h".to_string(), true);
    assert_eq!(creation.retries(), 0);
    assert_eq!(
        *creation.link(),
        Link { slug: first, url: "https://example.com/h".to_string(), hidden: true }
    );
    assert_eq!(creation.settle(&mut shared, InsertOutcome::SlugTaken), None);
    assert_eq!(resolve(&mut shared, first), Resolution::Miss);

    let creation = creation.retry(second);
    assert_eq!(creation.retries(), 1);
    assert_eq!(
        *creation.link(),
        Link { slug: second, url: "https://example.com/h".to_string(), hidden: true }
    );
    assert_eq!(
        creation.settle(&mut shared, InsertOutcome::UrlTaken),
        Some(Err(RegistryError::Conflict))
    );
    assert_eq!(
        creation.settle(&mut shared, InsertOutcome::Failed),
        Some(Err(RegistryError::Unavailable))
    );
    // nothing was cached on the way
    assert_eq!(resolve(&mut shared, second), Resolution::Miss);
    assert_eq!(creation.settle(&mut shared, InsertOutcome::Committed), Some(Ok(second)));
    assert_eq!(
        resolve(&mut shared, second),
        Resolution::Hit(RedirectTarget { url: "https://example.com/h".to_string(), hidden: true })
    );

    let creation = creation.retry(first);
    assert_eq!(creation.retries(), 2);
    assert_eq!(
        creation.settle(&mut shared, InsertOutcome::SlugTaken),
        Some(Err(RegistryError::PkRaceExhausted))
    );
}

#[test]
fn taken_url_ends_the_creation_at_once() {
    let mut shared = fresh(1000);
    let mut rng = StdRng::seed_from_u64(21);
    let creation = generate(&mut rng, "https://example.com/i".to_string(), false);
    let slug = creation.link().slug;
    match generate_settled(&mut shared, &mut rng, creation, InsertOutcome::UrlTaken) {
        Step::Done(result) => assert_eq!(result, Err(RegistryError::Conflict)),
        Step::Insert(_) => panic!("a taken URL is not retried"),
    }
    assert_eq!(resolve(&mut shared, slug), Resolution::Miss);
    let text = metrics(&shared).unwrap();
    assert_eq!(count(&text, "linker_http_requests", "generate", ""), Some(1));
}

#[test]
fn retry_keeps_the_row_and_draws_a_new_slug() {
    let mut shared = fresh(1000);
    let mut rng = StdRng::seed_from_u64(31);
    let creation = generate(&mut rng, "https://example.com/j".to_string(), true);
    let first = creation.link().slug;
    match generate_settled(&mut shared, &mut rng, creation, InsertOutcome::SlugTaken) {
        Step::Insert(next) => {
            assert_eq!(next.retries(), 1);
            assert_eq!(next.link().url, "https://example.com/j");
            assert!(next.link().hidden);
            assert_ne!(next.link().slug, first);
        }
        Step::Done(_) => panic!("a taken slug is retried"),
    }
    let text = metrics(&shared).unwrap();
    assert_eq!(count(&text, "linker_http_requests", "generate", ""), None);
}

#[test]
fn register_takes_the_parsed_url() {
    let mut rng = StdRng::seed_from_u64(41);
    let creation = register(&mut rng, "https://example.com", true).unwrap();
    assert_eq!(creation.link().url, "https://example.com/");
    assert!(creation.link().hidden);
    assert_eq!(creation.retries(), 0);
    let creation = register(&mut rng, "HTTP://Example.COM/a b", false).unwrap();
    assert_eq!(creation.link().url, "http://example.com/a%20b");
}

#[test]
fn register_refuses_what_is_no_url() {
    let mut rng = StdRng::seed_from_u64(51);
    assert!(register(&mut rng, "", false).is_none());
    assert!(register(&mut rng, "example.com/a", false).is_none());
    assert!(register(&mut rng, "http://", false).is_none());
}
