use linker::slug::{char_is_alphanumeric, InvalidFormat, Slug, LENGTH};
use rand::rngs::StdRng;
use rand::SeedableRng;

#[test]
fn length_is_ten() {
    assert_eq!(LENGTH, 10);
}

#[test]
fn parse_keeps_ten_alphanumerics() {
    let slug = Slug::parse("0000000000").unwrap();
    assert_eq!(slug.as_str(), "0000000000");
    let slug = Slug::parse("aZ09bY18cX").unwrap();
    assert_eq!(slug.as_str(), "aZ09bY18cX");
    assert_eq!(slug.as_str().len(), LENGTH);
}

#[test]
fn parse_refuses_other_lengths() {
    assert_eq!(Slug::parse(""), Err(InvalidFormat));
    assert_eq!(Slug::parse("short"), Err(InvalidFormat));
    assert_eq!(Slug::parse("ninechars"), Err(InvalidFormat));
    assert_eq!(Slug::parse("elevenchars"), Err(InvalidFormat));
}

#[test]
fn parse_refuses_symbols_outside_the_alphabet() {
    assert_eq!(Slug::parse("abc-def_12"), Err(InvalidFormat));
    assert_eq!(Slug::parse("abcdefghi "), Err(InvalidFormat));
    assert_eq!(Slug::parse("abcdefghi/"), Err(InvalidFormat));
    // ten characters, more than ten bytes
    assert_eq!(Slug::parse("abcdefghié"), Err(InvalidFormat));
    // ten bytes, fewer characters
    assert_eq!(Slug::parse("abcdefgh\u{e9}"), Err(InvalidFormat));
}

#[test]
fn try_from_is_parse() {
    let slug = Slug::try_from("abcdefghij").unwrap();
    assert_eq!(slug, Slug::parse("abcdefghij").unwrap());
    assert_eq!(Slug::try_from("abc"), Err(InvalidFormat));
}

#[test]
fn deref_gives_the_text() {
    let slug = Slug::parse("Qw3rTy7u1o").unwrap();
    let text: &str = &slug;
    assert_eq!(text, "Qw3rTy7u1o");
    assert!(slug.starts_with("Qw3"));
}

#[test]
fn from_symbols_spells_the_bytes() {
    let slug = Slug::from_symbols(b"0123456789").unwrap();
    assert_eq!(slug.as_str(), "0123456789");
    let slug = Slug::from_symbols(b"abcXYZ0189").unwrap();
    assert_eq!(slug.as_str(), "abcXYZ0189");
}

#[test]
fn from_symbols_refuses_what_is_no_slug() {
    assert_eq!(Slug::from_symbols(b""), Err(InvalidFormat));
    assert_eq!(Slug::from_symbols(b"012345678"), Err(InvalidFormat));
    assert_eq!(Slug::from_symbols(b"01234567890"), Err(InvalidFormat));
    assert_eq!(Slug::from_symbols(b"012345678-"), Err(InvalidFormat));
    assert_eq!(Slug::from_symbols(&[b'a', b'b', b'c', b'd', b'e', b'f', b'g', b'h', b'i', 0xe9]), Err(InvalidFormat));
}

#[test]
fn slugs_compare_by_text() {
    let a = Slug::parse("abcdefghij").unwrap();
    let b = Slug::from_symbols(b"abcdefghij").unwrap();
    let c = Slug::parse("abcdefghiJ").unwrap();
    assert_eq!(a, b);
    assert_ne!(a, c);
    let copy = a;
    assert_eq!(copy, a);
}

#[test]
fn from_rng_draws_ten_alphanumerics() {
    let mut rng = StdRng::seed_from_u64(7);
    for _ in 0..200 {
        let slug = Slug::from_rng(&mut rng);
        assert_eq!(slug.as_str().chars().count(), LENGTH);
        assert!(slug.as_str().chars().all(|c| c.is_ascii_alphanumeric()));
        assert_eq!(Slug::parse(slug.as_str()), Ok(slug));
    }
}

#[test]
fn from_rng_follows_the_generator() {
    let mut first = StdRng::seed_from_u64(42);
    let mut second = StdRng::seed_from_u64(42);
    let a = Slug::from_rng(&mut first);
    let b = Slug::from_rng(&mut second);
    assert_eq!(a, b);
    // the generator has moved on: the next draw is another slug
    let c = Slug::from_rng(&mut first);
    assert_ne!(a, c);
    assert_eq!(c, Slug::from_rng(&mut second));
}

#[test]
fn from_rng_uses_the_whole_alphabet() {
    let mut rng = StdRng::seed_from_u64(1);
    let mut seen = [false; 128];
    for _ in 0..500 {
        for c in Slug::from_rng(&mut rng).as_str().bytes() {
            seen[c as usize] = true;
        }
    }
    let distinct = seen.iter().filter(|s| **s).count();
    assert_eq!(distinct, 62);
}

#[test]
fn alphabet_is_digits_and_ascii_letters() {
    let inside = "0123456789ABCDEFGHIJKLMNOPQRSTUVWXYZabcdefghijklmnopqrstuvwxyz";
    assert_eq!(inside.len(), 62);
    assert!(inside.chars().all(char_is_alphanumeric));
    for c in ['/', ':', '@', '[', '`', '{', ' ', '-', '_', 'é', '٣'] {
        assert!(!char_is_alphanumeric(c));
    }
}
