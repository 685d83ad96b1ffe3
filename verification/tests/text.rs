use linker::text::same_text;

#[test]
fn same_text_compares_character_by_character() {
    assert!(same_text("", ""));
    assert!(same_text("links_pkey", "links_pkey"));
    assert!(!same_text("links_pkey", "links_pke"));
    assert!(!same_text("links_pkey", "links_pkez"));
    assert!(!same_text("a", ""));
    assert!(same_text("héllo", "héllo"));
    assert!(!same_text("héllo", "hello"));
}
