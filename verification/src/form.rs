//! `application/x-www-form-urlencoded` serialization of key/value pairs.
use vstd::prelude::*;

verus! {

/// The views of string pairs.
pub open spec fn pairs_view(pairs: Seq<(String, String)>) -> Seq<(Seq<char>, Seq<char>)> {
    pairs.map_values(|p: (String, String)| (p.0@, p.1@))
}

/// A byte that form encoding keeps as it is: `*`, `-`, `.`, `_`, an ASCII
/// digit or letter.
pub open spec fn kept_byte(b: u8) -> bool {
    b == 42 || b == 45 || b == 46 || b == 95 || (48 <= b && b <= 57) || (65 <= b && b <= 90) || (97 <= b && b <= 122)
}

/// The upper-case hex digit of `d` (below 16).
pub open spec fn hex_digit(d: u8) -> char {
    if d < 10 {
        (48 + d) as char
    } else {
        (55 + d) as char
    }
}

/// How form encoding writes a byte: kept bytes as they are, a space as `+`,
/// any other byte as `%` and two upper-case hex digits.
pub open spec fn form_byte(b: u8) -> Seq<char> {
    if kept_byte(b) {
        seq![b as char]
    } else if b == 32 {
        seq!['+']
    } else {
        seq!['%', hex_digit(b / 16), hex_digit(b % 16)]
    }
}

/// The form encoding of the bytes `bs`, byte by byte.
pub open spec fn form_bytes(bs: Seq<u8>) -> Seq<char>
    decreases bs.len(),
{
    if bs.len() == 0 {
        Seq::empty()
    } else {
        form_bytes(bs.drop_last()) + form_byte(bs.last())
    }
}

/// The form encoding of a text: of its UTF-8 bytes.
pub open spec fn form_component(s: Seq<char>) -> Seq<char> {
    form_bytes(vstd::utf8::encode_utf8(s))
}

/// The pairs written as `key=value`, joined by `&`.
pub open spec fn form_pairs(p: Seq<(Seq<char>, Seq<char>)>) -> Seq<char>
    decreases p.len(),
{
    if p.len() == 0 {
        Seq::empty()
    } else {
        let last = form_component(p.last().0) + seq!['='] + form_component(p.last().1);
        if p.len() == 1 {
            last
        } else {
            form_pairs(p.drop_last()) + seq!['&'] + last
        }
    }
}

/// What `serde_urlencoded::to_string` gives for a sequence of string pairs:
/// serializing string pairs always succeeds, and each pair is written by
/// `form_urlencoded::Serializer::append_pair`.
pub open spec fn form_urlencoded(pairs: Seq<(Seq<char>, Seq<char>)>) -> Option<Seq<char>> {
    Some(form_pairs(pairs))
}

/// A character that form encoding writes: an ASCII letter or digit, one of
/// `*-._` (kept as they are), `+` (for a space), `%` (of a `%XX` escape,
/// with upper-case hex digits), `=` between a key and its value, `&`
/// between pairs.
pub open spec fn form_char(c: char) -> bool {
    ('a' <= c && c <= 'z') || ('A' <= c && c <= 'Z') || ('0' <= c && c <= '9') || c == '*' || c == '-' || c == '.'
        || c == '_' || c == '+' || c == '%' || c == '=' || c == '&'
}

/// Text made of `form_char` characters only.
pub open spec fn all_form_chars(t: Seq<char>) -> bool {
    forall|i: int| 0 <= i < t.len() ==> form_char(#[trigger] t[i])
}

/// Every character that form encoding writes is a form character.
pub proof fn lemma_form_pairs_chars(p: Seq<(Seq<char>, Seq<char>)>)
    ensures
        all_form_chars(form_pairs(p)),
    decreases p.len(),
{
    if p.len() > 0 {
        lemma_form_bytes_chars(vstd::utf8::encode_utf8(p.last().0));
        lemma_form_bytes_chars(vstd::utf8::encode_utf8(p.last().1));
        let a = form_component(p.last().0);
        let b = form_component(p.last().1);
        assert(all_form_chars(a + seq!['='] + b));
        if p.len() > 1 {
            lemma_form_pairs_chars(p.drop_last());
            assert(all_form_chars(form_pairs(p.drop_last()) + seq!['&'] + (a + seq!['='] + b)));
            assert(form_pairs(p.drop_last()) + seq!['&'] + (a + seq!['='] + b) =~= form_pairs(p.drop_last()) + seq![
                '&',
            ] + a + seq!['='] + b);
        }
    }
}

proof fn lemma_form_bytes_chars(bs: Seq<u8>)
    ensures
        all_form_chars(form_bytes(bs)),
    decreases bs.len(),
{
    if bs.len() > 0 {
        lemma_form_bytes_chars(bs.drop_last());
        let b = bs.last();
        assert(all_form_chars(form_byte(b))) by {
            if kept_byte(b) {
                assert(form_char(b as char));
            } else if b != 32 {
                assert(form_char(hex_digit(b / 16)));
                assert(form_char(hex_digit(b % 16)));
            }
        }
    }
}

/// Calls `serde_urlencoded::to_string` on a sequence of string pairs: it
/// succeeds, with the text that `form_urlencoded` states.
#[verifier::external_body]
pub(crate) fn urlencode_pairs(pairs: &Vec<(String, String)>) -> (res: Option<String>)
    ensures
        res is Some,
        res matches Some(s) ==> Some(s@) == form_urlencoded(pairs_view(pairs@)),
{
    serde_urlencoded::to_string(pairs).ok()
}

/// The encoded pairs, or the empty text when serialization fails.
pub open spec fn encoded_or_empty(pairs: Seq<(Seq<char>, Seq<char>)>) -> Seq<char> {
    match form_urlencoded(pairs) {
        Some(s) => s,
        None => Seq::empty(),
    }
}

/// `serde_urlencoded::to_string(pairs).unwrap_or_default()`: the encoding
/// succeeds, so the text is the encoded pairs, made of form characters.
pub fn urlencode_or_empty(pairs: &Vec<(String, String)>) -> (s: String)
    ensures
        s@ == encoded_or_empty(pairs_view(pairs@)),
        form_urlencoded(pairs_view(pairs@)) == Some(s@),
        all_form_chars(s@),
{
    proof {
        lemma_form_pairs_chars(pairs_view(pairs@));
    }
    match urlencode_pairs(pairs) {
        Some(s) => s,
        None => String::new(),
    }
}

/// The single pair `(key, value)`.
pub fn single_pair(key: &str, value: &str) -> (p: Vec<(String, String)>)
    ensures
        pairs_view(p@) == seq![(key@, value@)],
{
    let mut p: Vec<(String, String)> = Vec::new();
    p.push((key.to_owned(), value.to_owned()));
    assert(pairs_view(p@) =~= seq![(key@, value@)]);
    p
}

} // verus!
