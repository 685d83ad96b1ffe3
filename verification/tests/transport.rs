use linker::error::RegistryError;
use linker::handlers::{create_redirect, metrics_encoded, short_link, Redirection};
use linker::slug::Slug;

#[test]
fn visible_link_redirects_at_protocol_level() {
    assert_eq!(
        create_redirect("https://example.com/a", false),
        Redirection::Permanent("https://example.com/a".to_string())
    );
}

#[test]
fn hidden_link_redirects_through_a_page() {
    assert_eq!(
        create_redirect("https://example.com/a", true),
        Redirection::Page(
            "<html><body><script>window.location.href='https://example.com/a';</script></body></html>"
                .to_string()
        )
    );
}

#[test]
fn short_link_joins_host_and_slug() {
    let slug = Slug::parse("abcdefghij").unwrap();
    assert_eq!(short_link("sho.rt", &slug), "http://sho.rt/abcdefghij");
    assert_eq!(short_link("localhost:8080", &slug), "http://localhost:8080/abcdefghij");
    assert_eq!(short_link("", &slug), "http:///abcdefghij");
}

#[test]
fn status_of_each_error() {
    assert_eq!(RegistryError::NotFound.status(), 404);
    assert_eq!(RegistryError::Conflict.status(), 409);
    assert_eq!(RegistryError::PkRaceExhausted.status(), 503);
    assert_eq!(RegistryError::Unavailable.status(), 503);
}

#[test]
fn exhausted_retries_surface_as_unavailable() {
    assert_eq!(RegistryError::PkRaceExhausted.surfaced(), RegistryError::Unavailable);
    assert_eq!(RegistryError::Unavailable.surfaced(), RegistryError::Unavailable);
    assert_eq!(RegistryError::NotFound.surfaced(), RegistryError::NotFound);
    assert_eq!(RegistryError::Conflict.surfaced(), RegistryError::Conflict);
}

#[test]
fn metrics_answer_follows_the_encoder() {
    assert_eq!(metrics_encoded(Some("# EOF\n".to_string())), Ok("# EOF\n".to_string()));
    assert_eq!(metrics_encoded(None), Err(RegistryError::Unavailable));
}
