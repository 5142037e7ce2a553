//! HTTP header values and header maps, modelled as bytes and ordered
//! `(name, value)` entries. Names are lower-case, as `http` stores them.
use vstd::prelude::*;
use vstd::string::*;
use crate::text::same_text;

verus! {

/// A byte that `HeaderValue::from_str` accepts: visible ASCII, obs-text
/// or horizontal tab.
pub open spec fn valid_header_byte(b: u8) -> bool {
    (b >= 32 && b != 127) || b == 9
}

/// A byte that `HeaderValue::to_str` accepts: visible ASCII or horizontal tab.
pub open spec fn visible_ascii_byte(b: u8) -> bool {
    (b >= 32 && b < 127) || b == 9
}

pub open spec fn all_valid_header_bytes(s: Seq<u8>) -> bool {
    forall|i: int| 0 <= i < s.len() ==> valid_header_byte(#[trigger] s[i])
}

pub open spec fn all_visible_ascii(s: Seq<u8>) -> bool {
    forall|i: int| 0 <= i < s.len() ==> visible_ascii_byte(#[trigger] s[i])
}

/// The characters of ASCII bytes.
pub open spec fn ascii_chars(s: Seq<u8>) -> Seq<char> {
    s.map_values(|b: u8| b as char)
}

/// What `HeaderValue::to_str` gives for a value with bytes `s`.
pub open spec fn header_text(s: Seq<u8>) -> Option<Seq<char>> {
    if all_visible_ascii(s) {
        Some(ascii_chars(s))
    } else {
        None
    }
}

/// What `HeaderValue::from_str` gives for the text `t`: its UTF-8 bytes
/// when they are all valid header bytes.
pub open spec fn header_value_of_text(t: Seq<char>) -> Option<Seq<u8>> {
    if all_valid_header_bytes(vstd::utf8::encode_utf8(t)) {
        Some(vstd::utf8::encode_utf8(t))
    } else {
        None
    }
}

/// Text of visible ASCII characters is a header value: its UTF-8 bytes are
/// its characters' codes, all valid header bytes.
pub proof fn lemma_visible_text_is_header_value(t: Seq<char>)
    requires
        forall|i: int| 0 <= i < t.len() ==> ' ' <= #[trigger] t[i] && t[i] <= '~',
    ensures
        header_value_of_text(t) is Some,
{
    assert(vstd::utf8::is_ascii_chars(t));
    vstd::utf8::is_ascii_chars_encode_utf8(t);
    let b = vstd::utf8::encode_utf8(t);
    assert forall|i: int| 0 <= i < b.len() implies valid_header_byte(#[trigger] b[i]) by {
        assert(t[i] as u8 == b[i]);
        assert(' ' <= t[i] && t[i] <= '~');
    }
}

/// `String::from_utf8` on ASCII bytes: it succeeds, and the string holds
/// one character per byte, of the same code.
#[verifier::external_body]
fn string_from_ascii(bytes: &Vec<u8>) -> (s: String)
    requires
        forall|i: int| 0 <= i < bytes@.len() ==> bytes@[i] < 128,
    ensures
        s@ == ascii_chars(bytes@),
{
    String::from_utf8(bytes.clone()).unwrap_or_default()
}

fn copy_bytes(b: &Vec<u8>) -> (c: Vec<u8>)
    ensures
        c@ == b@,
{
    let mut c: Vec<u8> = Vec::new();
    let mut i: usize = 0;
    while i < b.len()
        invariant
            i <= b.len(),
            c@ == b@.subrange(0, i as int),
        decreases b.len() - i,
    {
        c.push(b[i]);
        i = i + 1;
    }
    assert(c@ =~= b@);
    c
}

/// A header value: bytes that are all valid header bytes.
pub struct HeaderValue {
    bytes: Vec<u8>,
}

impl View for HeaderValue {
    type V = Seq<u8>;

    closed spec fn view(&self) -> Seq<u8> {
        self.bytes@
    }
}

impl HeaderValue {
    #[verifier::type_invariant]
    closed spec fn inv(self) -> bool {
        all_valid_header_bytes(self.bytes@)
    }

    /// The value whose bytes are `bytes`, when they are all valid.
    pub fn from_bytes(bytes: &Vec<u8>) -> (res: Option<HeaderValue>)
        ensures
            res is Some <==> all_valid_header_bytes(bytes@),
            res matches Some(v) ==> v@ == bytes@,
    {
        let mut i: usize = 0;
        while i < bytes.len()
            invariant
                i <= bytes.len(),
                forall|k: int| 0 <= k < i ==> valid_header_byte(#[trigger] bytes@[k]),
            decreases bytes.len() - i,
        {
            let b = bytes[i];
            if !((b >= 32 && b != 127) || b == 9) {
                assert(!valid_header_byte(bytes@[i as int]));
                return None;
            }
            i = i + 1;
        }
        Some(HeaderValue { bytes: copy_bytes(bytes) })
    }

    /// The value holding the UTF-8 bytes of `s`, when they are all valid
    /// (as `HeaderValue::from_str`).
    pub fn from_str(s: &str) -> (res: Option<HeaderValue>)
        ensures
            res is Some <==> header_value_of_text(s@) is Some,
            res matches Some(v) ==> Some(v@) == header_value_of_text(s@),
    {
        let bytes = s.as_bytes_vec();
        HeaderValue::from_bytes(&bytes)
    }

    /// The value's bytes.
    pub fn as_bytes(&self) -> (b: Vec<u8>)
        ensures
            b@ == self@,
    {
        copy_bytes(&self.bytes)
    }

    /// A value equal to this one.
    pub fn duplicate(&self) -> (v: HeaderValue)
        ensures
            v@ == self@,
    {
        proof {
            use_type_invariant(self);
        }
        HeaderValue { bytes: copy_bytes(&self.bytes) }
    }

    /// The value as text, when it is visible ASCII (as `HeaderValue::to_str`).
    pub fn to_str(&self) -> (res: Option<String>)
        ensures
            res is Some <==> header_text(self@) is Some,
            res matches Some(t) ==> Some(t@) == header_text(self@),
    {
        let mut i: usize = 0;
        while i < self.bytes.len()
            invariant
                i <= self.bytes.len(),
                forall|k: int| 0 <= k < i ==> visible_ascii_byte(#[trigger] self.bytes@[k]),
            decreases self.bytes.len() - i,
        {
            let b = self.bytes[i];
            if !((b >= 32 && b < 127) || b == 9) {
                assert(!visible_ascii_byte(self.bytes@[i as int]));
                return None;
            }
            i = i + 1;
        }
        assert forall|k: int| 0 <= k < self.bytes@.len() implies self.bytes@[k] < 128 by {
            assert(visible_ascii_byte(self.bytes@[k]));
        }
        Some(string_from_ascii(&self.bytes))
    }
}

/// The values stored under `name`, in order.
pub open spec fn values_of(h: Seq<(Seq<char>, Seq<u8>)>, name: Seq<char>) -> Seq<Seq<u8>>
    decreases h.len(),
{
    if h.len() == 0 {
        Seq::empty()
    } else if h.last().0 == name {
        values_of(h.drop_last(), name).push(h.last().1)
    } else {
        values_of(h.drop_last(), name)
    }
}

/// `h` without the entries named `name`.
pub open spec fn without_name(h: Seq<(Seq<char>, Seq<u8>)>, name: Seq<char>) -> Seq<(Seq<char>, Seq<u8>)>
    decreases h.len(),
{
    if h.len() == 0 {
        Seq::empty()
    } else if h.last().0 == name {
        without_name(h.drop_last(), name)
    } else {
        without_name(h.drop_last(), name).push(h.last())
    }
}

/// `i` is the index of the first entry of `h` named `name`.
pub open spec fn is_first_named(h: Seq<(Seq<char>, Seq<u8>)>, name: Seq<char>, i: int) -> bool {
    0 <= i < h.len() && h[i].0 == name && forall|j: int| 0 <= j < i ==> h[j].0 != name
}

/// `h` after `insert(name, v)`, as `http::HeaderMap::insert` does it: when
/// `name` is present, its first entry takes the value `v` in place and its
/// other entries go; otherwise `(name, v)` is added last.
pub open spec fn inserted(h: Seq<(Seq<char>, Seq<u8>)>, name: Seq<char>, v: Seq<u8>) -> Seq<(Seq<char>, Seq<u8>)> {
    if exists|i: int| is_first_named(h, name, i) {
        let f = choose|i: int| is_first_named(h, name, i);
        h.subrange(0, f).push((name, v)) + without_name(h.subrange(f + 1, h.len() as int), name)
    } else {
        h.push((name, v))
    }
}

/// Dropping the entries named `n` from `a + [e]` when `e` is not named `n`.
proof fn lemma_without_name_push(a: Seq<(Seq<char>, Seq<u8>)>, e: (Seq<char>, Seq<u8>), n: Seq<char>)
    ensures
        without_name(a.push(e), n) == (if e.0 == n {
            without_name(a, n)
        } else {
            without_name(a, n).push(e)
        }),
{
    assert(a.push(e).drop_last() =~= a);
}

/// The first index of `name` is unique.
proof fn lemma_first_named_unique(h: Seq<(Seq<char>, Seq<u8>)>, name: Seq<char>, i: int, j: int)
    requires
        is_first_named(h, name, i),
        is_first_named(h, name, j),
    ensures
        i == j,
{
    if i < j {
        assert(h[i].0 != name);
    } else if j < i {
        assert(h[j].0 != name);
    }
}

/// A character of a header name as `http` stores it: a lower-case letter,
/// a digit, or one of ``!#$%&'*+-.^_`|~``.
pub open spec fn header_name_char(c: char) -> bool {
    ('a' <= c && c <= 'z') || ('0' <= c && c <= '9') || c == '!' || c == '#' || c == '$' || c == '%' || c == '&'
        || c == '\'' || c == '*' || c == '+' || c == '-' || c == '.' || c == '^' || c == '_' || c == '`' || c == '|'
        || c == '~'
}

/// A header name as `http::HeaderName` holds it: non-empty, of header name
/// characters.
pub open spec fn valid_header_name(n: Seq<char>) -> bool {
    n.len() > 0 && forall|i: int| 0 <= i < n.len() ==> header_name_char(#[trigger] n[i])
}

/// Every entry has a valid header name.
pub open spec fn all_names_valid(h: Seq<(Seq<char>, Seq<u8>)>) -> bool {
    forall|i: int| 0 <= i < h.len() ==> valid_header_name(#[trigger] h[i].0)
}

/// The header names that the library writes are valid names.
pub proof fn lemma_known_header_names()
    ensures
        valid_header_name("location"@),
        valid_header_name("set-cookie"@),
        valid_header_name("content-type"@),
        valid_header_name("cookie"@),
        valid_header_name("user-agent"@),
        valid_header_name("accept"@),
        valid_header_name("accept-language"@),
        valid_header_name("x-forwarded-for"@),
        valid_header_name("x-real-ip"@),
        valid_header_name("x-forwarded-proto"@),
        valid_header_name("x-forwarded-host"@),
{
    reveal_strlit("location");
    reveal_strlit("set-cookie");
    reveal_strlit("content-type");
    reveal_strlit("cookie");
    reveal_strlit("user-agent");
    reveal_strlit("accept");
    reveal_strlit("accept-language");
    reveal_strlit("x-forwarded-for");
    reveal_strlit("x-real-ip");
    reveal_strlit("x-forwarded-proto");
    reveal_strlit("x-forwarded-host");
}

/// The entries `(name, v)` for each `v` in `values`.
pub open spec fn entries_for(name: Seq<char>, values: Seq<Seq<u8>>) -> Seq<(Seq<char>, Seq<u8>)> {
    values.map_values(|v: Seq<u8>| (name, v))
}

fn is_header_name_char(c: char) -> (b: bool)
    ensures
        b == header_name_char(c),
{
    ('a' <= c && c <= 'z') || ('0' <= c && c <= '9') || c == '!' || c == '#' || c == '$' || c == '%' || c == '&'
        || c == '\'' || c == '*' || c == '+' || c == '-' || c == '.' || c == '^' || c == '_' || c == '`' || c == '|'
        || c == '~'
}

fn is_header_name(name: &str) -> (b: bool)
    ensures
        b == valid_header_name(name@),
{
    let n = name.unicode_len();
    if n == 0 {
        return false;
    }
    let mut i: usize = 0;
    while i < n
        invariant
            n == name@.len(),
            i <= n,
            forall|j: int| 0 <= j < i ==> header_name_char(#[trigger] name@[j]),
        decreases n - i,
    {
        if !is_header_name_char(name.get_char(i)) {
            return false;
        }
        i = i + 1;
    }
    true
}

/// A header map: `(name, value)` entries in the order they were added,
/// each name a valid lower-case header name.
pub struct HeaderMap {
    entries: Vec<(String, HeaderValue)>,
}

pub open spec fn entry_view(e: (String, HeaderValue)) -> (Seq<char>, Seq<u8>) {
    (e.0@, e.1@)
}

impl View for HeaderMap {
    type V = Seq<(Seq<char>, Seq<u8>)>;

    closed spec fn view(&self) -> Seq<(Seq<char>, Seq<u8>)> {
        self.entries@.map_values(|e: (String, HeaderValue)| entry_view(e))
    }
}

impl HeaderMap {
    #[verifier::type_invariant]
    closed spec fn names_valid(self) -> bool {
        all_names_valid(self.entries@.map_values(|e: (String, HeaderValue)| entry_view(e)))
    }

    /// The empty map.
    pub fn new() -> (h: HeaderMap)
        ensures
            h@ == Seq::<(Seq<char>, Seq<u8>)>::empty(),
    {
        let h = HeaderMap { entries: Vec::new() };
        assert(h@ =~= Seq::<(Seq<char>, Seq<u8>)>::empty());
        h
    }

    /// The number of entries.
    pub fn len(&self) -> (n: usize)
        ensures
            n == self@.len(),
    {
        self.entries.len()
    }

    /// The name of entry `i`.
    pub fn name_at(&self, i: usize) -> (n: String)
        requires
            i < self@.len(),
        ensures
            n@ == self@[i as int].0,
            valid_header_name(n@),
    {
        proof {
            use_type_invariant(self);
            assert(valid_header_name(self@[i as int].0));
        }
        self.entries[i].0.clone()
    }

    /// The value of entry `i`.
    pub fn value_at(&self, i: usize) -> (v: HeaderValue)
        requires
            i < self@.len(),
        ensures
            v@ == self@[i as int].1,
    {
        self.entries[i].1.duplicate()
    }

    /// Adds `(name, value)` after the existing entries.
    pub fn append(&mut self, name: &str, value: HeaderValue)
        requires
            valid_header_name(name@),
        ensures
            final(self)@ == old(self)@.push((name@, value@)),
    {
        proof {
            use_type_invariant(&*self);
        }
        let mut entries: Vec<(String, HeaderValue)> = Vec::new();
        std::mem::swap(&mut entries, &mut self.entries);
        entries.push((name.to_owned(), value));
        assert(entries@.map_values(|e: (String, HeaderValue)| entry_view(e)) =~= old(self)@.push((name@, value@)));
        self.entries = entries;
    }

    /// Adds `(name, value)` after the existing entries when `name` is a
    /// valid lower-case header name (as `http::HeaderName::from_bytes`
    /// accepts it without change); otherwise the map stays as it is.
    pub fn append_checked(&mut self, name: &str, value: HeaderValue) -> (added: bool)
        ensures
            added == valid_header_name(name@),
            added ==> final(self)@ == old(self)@.push((name@, value@)),
            !added ==> final(self)@ == old(self)@,
    {
        if is_header_name(name) {
            self.append(name, value);
            true
        } else {
            false
        }
    }

    /// Removes every entry named `name`.
    pub fn remove(&mut self, name: &str)
        ensures
            final(self)@ == without_name(old(self)@, name@),
    {
        proof {
            use_type_invariant(&*self);
        }
        let ghost orig = self@;
        let mut kept: Vec<(String, HeaderValue)> = Vec::new();
        let mut i: usize = 0;
        let n = self.entries.len();
        while i < n
            invariant
                n == self.entries.len(),
                orig == self@,
                all_names_valid(orig),
                all_names_valid(kept@.map_values(|e: (String, HeaderValue)| entry_view(e))),
                i <= n,
                kept@.map_values(|e: (String, HeaderValue)| entry_view(e)) == without_name(
                    orig.subrange(0, i as int),
                    name@,
                ),
            decreases n - i,
        {
            assert(orig.subrange(0, i + 1).drop_last() =~= orig.subrange(0, i as int));
            let is_named = same_text(self.entries[i].0.as_str(), name);
            if !is_named {
                let ghost before = kept@;
                kept.push((self.entries[i].0.clone(), self.entries[i].1.duplicate()));
                assert(kept@.map_values(|e: (String, HeaderValue)| entry_view(e)) =~= before.map_values(
                    |e: (String, HeaderValue)| entry_view(e),
                ).push(orig[i as int]));
            }
            i = i + 1;
        }
        assert(orig.subrange(0, n as int) =~= orig);
        self.entries = kept;
    }

    /// Sets `name` to the single value `value`: the first entry named
    /// `name` takes the value in place and the others go; without such an
    /// entry, `(name, value)` is added last.
    pub fn insert(&mut self, name: &str, value: HeaderValue)
        requires
            valid_header_name(name@),
        ensures
            final(self)@ == inserted(old(self)@, name@, value@),
    {
        proof {
            use_type_invariant(&*self);
        }
        let ghost orig = self@;
        let mut kept: Vec<(String, HeaderValue)> = Vec::new();
        let mut found = false;
        let ghost mut f: int = 0;
        let mut value = Some(value);
        let ghost v = value.unwrap()@;
        let mut i: usize = 0;
        let n = self.entries.len();
        while i < n
            invariant
                n == self.entries.len(),
                orig == self@,
                valid_header_name(name@),
                all_names_valid(orig),
                all_names_valid(kept@.map_values(|e: (String, HeaderValue)| entry_view(e))),
                i <= n,
                found ==> value is None,
                !found ==> (value matches Some(x) && x@ == v),
                !found ==> forall|j: int| 0 <= j < i ==> orig[j].0 != name@,
                !found ==> kept@.map_values(|e: (String, HeaderValue)| entry_view(e)) == orig.subrange(0, i as int),
                found ==> is_first_named(orig, name@, f) && f < i,
                found ==> kept@.map_values(|e: (String, HeaderValue)| entry_view(e)) == orig.subrange(0, f).push(
                    (name@, v),
                ) + without_name(orig.subrange(f + 1, i as int), name@),
            decreases n - i,
        {
            let ghost before = kept@.map_values(|e: (String, HeaderValue)| entry_view(e));
            let is_named = same_text(self.entries[i].0.as_str(), name);
            if is_named {
                if !found {
                    let x = value.take().unwrap();
                    kept.push((name.to_owned(), x));
                    proof {
                        f = i as int;
                        assert(orig.subrange(f + 1, i + 1) =~= Seq::<(Seq<char>, Seq<u8>)>::empty());
                        assert(kept@.map_values(|e: (String, HeaderValue)| entry_view(e)) =~= orig.subrange(0, f).push(
                            (name@, v),
                        ) + without_name(orig.subrange(f + 1, i + 1), name@));
                    }
                    found = true;
                } else {
                    proof {
                        assert(orig.subrange(f + 1, i + 1) =~= orig.subrange(f + 1, i as int).push(orig[i as int]));
                        lemma_without_name_push(orig.subrange(f + 1, i as int), orig[i as int], name@);
                    }
                }
            } else {
                kept.push((self.entries[i].0.clone(), self.entries[i].1.duplicate()));
                proof {
                    if found {
                        assert(orig.subrange(f + 1, i + 1) =~= orig.subrange(f + 1, i as int).push(orig[i as int]));
                        lemma_without_name_push(orig.subrange(f + 1, i as int), orig[i as int], name@);
                        assert(kept@.map_values(|e: (String, HeaderValue)| entry_view(e)) =~= before.push(orig[i as int]));
                    } else {
                        assert(kept@.map_values(|e: (String, HeaderValue)| entry_view(e)) =~= orig.subrange(0, i + 1));
                    }
                }
            }
            i = i + 1;
        }
        if !found {
            let x = value.take().unwrap();
            kept.push((name.to_owned(), x));
            proof {
                assert(!(exists|j: int| is_first_named(orig, name@, j)));
                assert(orig.subrange(0, n as int) =~= orig);
                assert(kept@.map_values(|e: (String, HeaderValue)| entry_view(e)) =~= orig.push((name@, v)));
            }
        } else {
            proof {
                let c = choose|j: int| is_first_named(orig, name@, j);
                lemma_first_named_unique(orig, name@, c, f);
            }
        }
        self.entries = kept;
    }

    /// The values stored under `name`, in order.
    pub fn get_all(&self, name: &str) -> (vs: Vec<HeaderValue>)
        ensures
            vs@.map_values(|v: HeaderValue| v@) == values_of(self@, name@),
    {
        let ghost orig = self@;
        let mut vs: Vec<HeaderValue> = Vec::new();
        let mut i: usize = 0;
        let n = self.entries.len();
        while i < n
            invariant
                n == self.entries.len(),
                orig == self@,
                i <= n,
                vs@.map_values(|v: HeaderValue| v@) == values_of(orig.subrange(0, i as int), name@),
            decreases n - i,
        {
            assert(orig.subrange(0, i + 1).drop_last() =~= orig.subrange(0, i as int));
            if same_text(self.entries[i].0.as_str(), name) {
                let ghost before = vs@;
                vs.push(self.entries[i].1.duplicate());
                assert(vs@.map_values(|v: HeaderValue| v@) =~= before.map_values(|v: HeaderValue| v@).push(
                    orig[i as int].1,
                ));
            }
            i = i + 1;
        }
        assert(orig.subrange(0, n as int) =~= orig);
        vs
    }

    /// The first value stored under `name`.
    pub fn get(&self, name: &str) -> (v: Option<HeaderValue>)
        ensures
            v is Some <==> values_of(self@, name@).len() > 0,
            v matches Some(x) ==> x@ == values_of(self@, name@)[0],
    {
        let vs = self.get_all(name);
        if vs.len() == 0 {
            None
        } else {
            assert(vs@.map_values(|v: HeaderValue| v@)[0] == vs@[0]@);
            Some(vs[0].duplicate())
        }
    }

    /// Adds `(name, v)` for each `v` of `values`, in order.
    pub fn append_all(&mut self, name: &str, values: &Vec<HeaderValue>)
        requires
            valid_header_name(name@),
        ensures
            final(self)@ == old(self)@ + entries_for(name@, values@.map_values(|v: HeaderValue| v@)),
    {
        let mut i: usize = 0;
        let ghost start = self@;
        while i < values.len()
            invariant
                i <= values.len(),
                valid_header_name(name@),
                self@ == start + entries_for(
                    name@,
                    values@.subrange(0, i as int).map_values(|v: HeaderValue| v@),
                ),
            decreases values.len() - i,
        {
            self.append(name, values[i].duplicate());
            assert(entries_for(name@, values@.subrange(0, i + 1).map_values(|v: HeaderValue| v@))
                =~= entries_for(name@, values@.subrange(0, i as int).map_values(|v: HeaderValue| v@)).push(
                (name@, values@[i as int]@),
            ));
            i = i + 1;
        }
        assert(values@.subrange(0, values@.len() as int) =~= values@);
    }
}

} // verus!
