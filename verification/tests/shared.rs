use linker::handlers::shared::{Builder, DEFAULT_CACHE_CAPACITY, DEFAULT_MAX_CONNECTIONS};
use linker::handlers::{resolve, resolve_fetched, RedirectTarget, Resolution, Shared};
use linker::slug::Slug;
use linker::store::Lookup;
use sqlx::postgres::PgConnectOptions;

#[test]
fn builder_settles_a_small_pool() {
    let opts = PgConnectOptions::new().host("db.internal").port(6543).database("links");
    let (pool, _shared) = Shared::builder()
        .with_connect_opts(opts)
        .with_max_cache_capacity(10)
        .build();
    assert_eq!(pool.opts.get_host(), "db.internal");
    assert_eq!(pool.opts.get_port(), 6543);
    assert_eq!(pool.opts.get_database(), Some("links"));
    assert_eq!(pool.min_connections, 1);
    assert_eq!(pool.max_connections, 2);
}

#[test]
fn default_builder_is_the_initial_one() {
    let (pool, mut shared) = Builder::default()
        .with_connect_opts(PgConnectOptions::new().host("h"))
        .with_max_cache_capacity(1)
        .build();
    assert_eq!(pool.opts.get_host(), "h");
    let slug = Slug::parse("abcdefghij").unwrap();
    assert_eq!(resolve(&mut shared, slug), Resolution::Miss);
}

#[test]
fn default_settings_cache_a_thousand_links() {
    assert_eq!(DEFAULT_CACHE_CAPACITY, 1000);
    assert_eq!(DEFAULT_MAX_CONNECTIONS, 10);
    let (pool, mut shared) = Shared::default_settings(PgConnectOptions::new().host("h2"));
    assert_eq!(pool.opts.get_host(), "h2");
    assert_eq!(pool.min_connections, 1);
    assert_eq!(pool.max_connections, 10);
    let slug = Slug::parse("abcdefghij").unwrap();
    let target = RedirectTarget { url: "https://example.com/".to_string(), hidden: false };
    assert_eq!(resolve_fetched(&mut shared, slug, Lookup::Found(target.clone())), Ok(target.clone()));
    assert_eq!(resolve(&mut shared, slug), Resolution::Hit(target));
}
