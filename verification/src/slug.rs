//! Fixed-length opaque identifiers of links.
//!
//! A slug is ten characters drawn from the digits and the ASCII letters. It is
//! stored inline in an `arrayvec::ArrayString`, so it is `Copy` and compares and
//! hashes by its text.

use arrayvec::ArrayString;
use rand::rngs::StdRng;
use rand::Rng;
use vstd::prelude::*;
use vstd::string::StrSliceExecFns;

verus! {

/// Number of characters in every slug.
pub const LENGTH: usize = 10;

/// Whether `c` belongs to the 62-symbol slug alphabet: digits and ASCII letters.
pub open spec fn is_alphanumeric(c: char) -> bool {
    ('0' <= c && c <= '9') || ('A' <= c && c <= 'Z') || ('a' <= c && c <= 'z')
}

/// Whether `text` is the text of a slug: exactly `LENGTH` characters, each of
/// them in the slug alphabet.
pub open spec fn valid_slug_text(text: Seq<char>) -> bool {
    &&& text.len() == LENGTH
    &&& forall|i: int| 0 <= i < text.len() ==> is_alphanumeric(#[trigger] text[i])
}

/// The characters that a sequence of ASCII symbols stands for.
pub open spec fn symbols_text(symbols: Seq<u8>) -> Seq<char> {
    Seq::new(symbols.len(), |i: int| symbols[i] as char)
}

/// `arrayvec::ArrayString`, carried as an opaque value.
#[verifier::external_type_specification]
#[verifier::external_body]
pub struct ExArrayString<const CAP: usize>(ArrayString<CAP>);

/// `rand::rngs::StdRng`, carried as an opaque value.
#[verifier::external_type_specification]
#[verifier::external_body]
pub struct ExStdRng(StdRng);

/// The characters held by an `ArrayString` of slug capacity, in order.
pub uninterp spec fn array_text(s: ArrayString<10>) -> Seq<char>;

/// `ArrayString::new`: a string that holds no character.
#[verifier::external_body]
fn array_new() -> (s: ArrayString<10>)
    ensures
        array_text(s) == Seq::<char>::empty(),
{
    ArrayString::new()
}

/// `ArrayString::push`: appends `c`. The outside function panics when the
/// encoded character does not fit; with ASCII content each character takes one
/// byte, so one free place is enough.
#[verifier::external_body]
fn array_push(s: &mut ArrayString<10>, c: char)
    requires
        array_text(*old(s)).len() < 10,
        vstd::utf8::is_ascii_chars(array_text(*old(s))),
        c <= '\u{7f}',
    ensures
        array_text(*final(s)) == array_text(*old(s)).push(c),
{
    s.push(c)
}

/// `ArrayString::from`: copies `text` when its bytes fit the capacity, and
/// refuses it otherwise. For ASCII text the bytes are as many as the
/// characters; other text takes more bytes than it has characters.
#[verifier::external_body]
fn array_from(text: &str) -> (r: Option<ArrayString<10>>)
    ensures
        text.is_ascii() ==> (r is Some <==> text@.len() <= 10),
        r is Some ==> text@.len() <= 10,
        r matches Some(s) ==> array_text(s) == text@,
{
    ArrayString::from(text).ok()
}

/// `ArrayString::as_str`: the held characters as a string slice.
#[verifier::external_body]
fn array_as_str(s: &ArrayString<10>) -> (r: &str)
    ensures
        r@ == array_text(*s),
{
    s.as_str()
}

/// `Rng::sample` with `rand::distributions::Alphanumeric`: one byte out of
/// `A-Z`, `a-z`, `0-9`. Which one depends on the generator's state, so only
/// the alphabet is stated.
#[verifier::external_body]
fn draw_symbol(rng: &mut StdRng) -> (b: u8)
    ensures
        is_alphanumeric(b as char),
{
    rng.sample(rand::distributions::Alphanumeric)
}

/// Executable test of membership in the slug alphabet.
pub fn char_is_alphanumeric(c: char) -> (b: bool)
    ensures
        b == is_alphanumeric(c),
{
    ('0' <= c && c <= '9') || ('A' <= c && c <= 'Z') || ('a' <= c && c <= 'z')
}

/// The error of [`Slug::parse`] and [`Slug::from_symbols`]: the input is not
/// `LENGTH` alphanumeric characters.
#[derive(Clone, Copy, Debug, PartialEq, Eq, Structural)]
pub struct InvalidFormat;

/// An opaque identifier of a link.
#[derive(Copy, Clone, PartialEq, Eq, Hash, Debug)]
pub struct Slug(ArrayString<LENGTH>);

impl View for Slug {
    type V = Seq<char>;

    closed spec fn view(&self) -> Seq<char> {
        array_text(self.0)
    }
}

impl Slug {
    /// Every slug holds `LENGTH` alphanumeric characters.
    #[verifier::type_invariant]
    pub closed spec fn well_formed(self) -> bool {
        valid_slug_text(array_text(self.0))
    }

    /// Builds the slug whose characters are the given ASCII symbols.
    pub fn from_symbols(symbols: &[u8]) -> (r: Result<Slug, InvalidFormat>)
        ensures
            r is Ok <==> valid_slug_text(symbols_text(symbols@)),
            r matches Ok(slug) ==> slug@ == symbols_text(symbols@),
    {
        if symbols.len() != LENGTH {
            return Err(InvalidFormat);
        }
        let mut text = array_new();
        let mut i: usize = 0;
        while i < LENGTH
            invariant
                symbols.len() == LENGTH,
                i <= LENGTH,
                array_text(text) == symbols_text(symbols@).take(i as int),
                forall|k: int| 0 <= k < i ==> is_alphanumeric(#[trigger] symbols_text(symbols@)[k]),
            decreases LENGTH - i,
        {
            let c = symbols[i] as char;
            assert(c == symbols_text(symbols@)[i as int]);
            if !char_is_alphanumeric(c) {
                return Err(InvalidFormat);
            }
            array_push(&mut text, c);
            assert(symbols_text(symbols@).take(i as int).push(c)
                =~= symbols_text(symbols@).take(i + 1));
            i += 1;
        }
        assert(symbols_text(symbols@).take(LENGTH as int) =~= symbols_text(symbols@));
        Ok(Slug(text))
    }

    /// Draws a fresh slug: `LENGTH` symbols taken one after another from the
    /// alphanumeric distribution of `rng`. Nothing makes the slug unique; the
    /// store's primary key does.
    pub fn from_rng(rng: &mut StdRng) -> (slug: Slug)
        ensures
            valid_slug_text(slug@),
    {
        let mut symbols: Vec<u8> = Vec::new();
        let mut i: usize = 0;
        while i < LENGTH
            invariant
                i <= LENGTH,
                symbols.len() == i,
                forall|k: int| 0 <= k < i ==> is_alphanumeric(#[trigger] symbols[k] as char),
            decreases LENGTH - i,
        {
            let b = draw_symbol(rng);
            symbols.push(b);
            i += 1;
        }
        match Slug::from_symbols(symbols.as_slice()) {
            Ok(slug) => slug,
            Err(_) => {
                proof {
                    assert(valid_slug_text(symbols_text(symbols@)));
                }
                unreached()
            },
        }
    }

    /// Reads a slug from text: succeeds exactly on `LENGTH` alphanumeric
    /// characters, and keeps them as they are.
    pub fn parse(text: &str) -> (r: Result<Slug, InvalidFormat>)
        ensures
            r is Ok <==> valid_slug_text(text@),
            r matches Ok(slug) ==> slug@ == text@,
    {
        if text.unicode_len() != LENGTH {
            return Err(InvalidFormat);
        }
        let mut i: usize = 0;
        while i < LENGTH
            invariant
                text@.len() == LENGTH,
                i <= LENGTH,
                forall|k: int| 0 <= k < i ==> is_alphanumeric(#[trigger] text@[k]),
            decreases LENGTH - i,
        {
            if !char_is_alphanumeric(text.get_char(i)) {
                return Err(InvalidFormat);
            }
            i += 1;
        }
        assert(text.is_ascii());
        match array_from(text) {
            Some(held) => Ok(Slug(held)),
            None => Err(InvalidFormat),
        }
    }

    /// The slug's characters.
    #[inline]
    pub fn as_str(&self) -> (r: &str)
        ensures
            r@ == self@,
            valid_slug_text(r@),
    {
        proof {
            use_type_invariant(self);
        }
        array_as_str(&self.0)
    }
}

impl<'a> TryFrom<&'a str> for Slug {
    type Error = InvalidFormat;

    /// Same as [`Slug::parse`].
    #[inline]
    fn try_from(text: &'a str) -> (r: Result<Self, Self::Error>)
        ensures
            r is Ok <==> valid_slug_text(text@),
            r matches Ok(slug) ==> slug@ == text@,
    {
        Slug::parse(text)
    }
}

/// What the conversion returns is stated by `try_from` itself, over the slug's
/// text: a slug is held in an outside type, and no spec function can name one.
impl<'a> vstd::std_specs::convert::TryFromSpecImpl<&'a str> for Slug {
    open spec fn obeys_try_from_spec() -> bool {
        false
    }

    open spec fn try_from_spec(text: &'a str) -> Result<Self, InvalidFormat> {
        Err(InvalidFormat)
    }
}

impl std::ops::Deref for Slug {
    type Target = str;

    #[inline]
    fn deref(&self) -> (r: &str)
        ensures
            r@ == self@,
    {
        self.as_str()
    }
}

} // verus!
