//! Character-level text operations on `&str`, specified over `Seq<char>`.
use vstd::prelude::*;
use vstd::string::*;

verus! {

/// `p` occurs in `s` starting at index `i`.
pub open spec fn occurs_at<A>(s: Seq<A>, p: Seq<A>, i: int) -> bool {
    0 <= i && i + p.len() <= s.len() && s.subrange(i, i + p.len()) == p
}

/// `s` begins with `p`.
pub open spec fn starts_with_seq<A>(s: Seq<A>, p: Seq<A>) -> bool {
    occurs_at(s, p, 0)
}

/// `p` occurs somewhere in `s` (the empty pattern occurs in every text).
pub open spec fn contains_seq<A>(s: Seq<A>, p: Seq<A>) -> bool {
    exists|i: int| occurs_at(s, p, i)
}

/// `s` with every trailing `c` removed.
pub open spec fn trim_end_char(s: Seq<char>, c: char) -> Seq<char>
    decreases s.len(),
{
    if s.len() > 0 && s.last() == c {
        trim_end_char(s.drop_last(), c)
    } else {
        s
    }
}

/// Replacement of the empty pattern: `r` is put before every element and
/// at the end.
pub open spec fn replace_empty<A>(s: Seq<A>, r: Seq<A>) -> Seq<A>
    decreases s.len(),
{
    if s.len() == 0 {
        r
    } else {
        r + seq![s[0]] + replace_empty(s.drop_first(), r)
    }
}

/// Replacement of a non-empty pattern: occurrences are taken from the left,
/// without overlap.
pub open spec fn replace_nonempty<A>(s: Seq<A>, p: Seq<A>, r: Seq<A>) -> Seq<A>
    decreases s.len(),
{
    if p.len() == 0 || s.len() < p.len() {
        s
    } else if starts_with_seq(s, p) {
        r + replace_nonempty(s.subrange(p.len() as int, s.len() as int), p, r)
    } else {
        seq![s[0]] + replace_nonempty(s.drop_first(), p, r)
    }
}

/// Every occurrence of `p` in `s` replaced by `r`, as `str::replace` does.
pub open spec fn replace_all<A>(s: Seq<A>, p: Seq<A>, r: Seq<A>) -> Seq<A> {
    if p.len() == 0 {
        replace_empty(s, r)
    } else {
        replace_nonempty(s, p, r)
    }
}

/// The characters of `s`, in order.
pub fn chars_of(s: &str) -> (v: Vec<char>)
    ensures
        v@ == s@,
{
    let n = s.unicode_len();
    let mut v: Vec<char> = Vec::new();
    let mut i: usize = 0;
    while i < n
        invariant
            n == s@.len(),
            i <= n,
            v@ == s@.subrange(0, i as int),
        decreases n - i,
    {
        v.push(s.get_char(i));
        i = i + 1;
    }
    v
}

/// Whether `p` occurs in `v` at index `i`.
pub fn occurs_at_exec(v: &Vec<char>, p: &Vec<char>, i: usize) -> (b: bool)
    ensures
        b == occurs_at(v@, p@, i as int),
{
    if i > v.len() || p.len() > v.len() - i {
        return false;
    }
    let mut j: usize = 0;
    while j < p.len()
        invariant
            i + p.len() <= v.len(),
            j <= p.len(),
            forall|k: int| 0 <= k < j ==> v@[i + k] == p@[k],
        decreases p.len() - j,
    {
        if v[i + j] != p[j] {
            assert(v@.subrange(i as int, i + p.len())[j as int] != p@[j as int]);
            return false;
        }
        j = j + 1;
    }
    assert(v@.subrange(i as int, i + p.len()) =~= p@);
    true
}

/// Whether `s` and `t` hold the same characters.
pub fn same_text(s: &str, t: &str) -> (b: bool)
    ensures
        b == (s@ == t@),
{
    let v = chars_of(s);
    let w = chars_of(t);
    if v.len() != w.len() {
        return false;
    }
    let b = occurs_at_exec(&v, &w, 0);
    assert(v@.subrange(0, w@.len() as int) =~= v@);
    b
}

/// Whether `s` begins with `p`.
pub fn starts_with(s: &str, p: &str) -> (b: bool)
    ensures
        b == starts_with_seq(s@, p@),
{
    let v = chars_of(s);
    let w = chars_of(p);
    occurs_at_exec(&v, &w, 0)
}

/// Whether `p` occurs somewhere in `s`.
pub fn contains(s: &str, p: &str) -> (b: bool)
    ensures
        b == contains_seq(s@, p@),
{
    let v = chars_of(s);
    let w = chars_of(p);
    if w.len() > v.len() {
        assert forall|i: int| !occurs_at(v@, w@, i) by {}
        return false;
    }
    let last = v.len() - w.len();
    let mut i: usize = 0;
    loop
        invariant
            v@ == s@,
            w@ == p@,
            last == v@.len() - w@.len(),
            i <= last,
            forall|k: int| 0 <= k < i ==> !occurs_at(v@, w@, k),
        decreases last - i,
    {
        if occurs_at_exec(&v, &w, i) {
            assert(occurs_at(v@, w@, i as int));
            return true;
        }
        if i == last {
            assert forall|k: int| !occurs_at(v@, w@, k) by {
                if 0 <= k < i {
                }
            }
            return false;
        }
        i = i + 1;
    }
}

/// `s` without its trailing `c` characters.
pub fn trim_end_matches_char(s: &str, c: char) -> (t: &str)
    ensures
        t@ == trim_end_char(s@, c),
{
    let v = chars_of(s);
    let mut n: usize = v.len();
    assert(v@.subrange(0, v@.len() as int) =~= v@);
    while n > 0 && v[n - 1] == c
        invariant
            n <= v@.len(),
            trim_end_char(v@.subrange(0, n as int), c) == trim_end_char(v@, c),
        decreases n,
    {
        assert(v@.subrange(0, n as int).drop_last() =~= v@.subrange(0, n - 1));
        n = n - 1;
    }
    s.substring_char(0, n)
}

} // verus!

verus! {

proof fn lemma_replace_match<A>(v: Seq<A>, w: Seq<A>, r: Seq<A>, i: int)
    requires
        w.len() > 0,
        occurs_at(v, w, i),
    ensures
        replace_nonempty(v.subrange(i, v.len() as int), w, r) == r + replace_nonempty(
            v.subrange(i + w.len(), v.len() as int),
            w,
            r,
        ),
{
    let t = v.subrange(i, v.len() as int);
    assert(t.subrange(0, w.len() as int) =~= v.subrange(i, i + w.len()));
    assert(t.subrange(w.len() as int, t.len() as int) =~= v.subrange(i + w.len(), v.len() as int));
}

proof fn lemma_replace_skip<A>(v: Seq<A>, w: Seq<A>, r: Seq<A>, i: int)
    requires
        w.len() > 0,
        0 <= i < v.len(),
        !occurs_at(v, w, i),
    ensures
        replace_nonempty(v.subrange(i, v.len() as int), w, r) == seq![v[i]] + replace_nonempty(
            v.subrange(i + 1, v.len() as int),
            w,
            r,
        ),
{
    let t = v.subrange(i, v.len() as int);
    let u = v.subrange(i + 1, v.len() as int);
    if t.len() < w.len() {
        assert(u.len() < w.len());
        assert(t =~= seq![v[i]] + u);
    } else {
        assert(t.subrange(0, w.len() as int) =~= v.subrange(i, i + w.len()));
        assert(t.drop_first() =~= u);
    }
}

proof fn lemma_replace_empty_step<A>(v: Seq<A>, r: Seq<A>, i: int)
    requires
        0 <= i < v.len(),
    ensures
        replace_empty(v.subrange(i, v.len() as int), r) == r + seq![v[i]] + replace_empty(
            v.subrange(i + 1, v.len() as int),
            r,
        ),
{
    let t = v.subrange(i, v.len() as int);
    assert(t.drop_first() =~= v.subrange(i + 1, v.len() as int));
}

/// `s` with every occurrence of `p` replaced by `r`, the occurrences taken
/// from the left without overlap; an empty `p` puts `r` before every
/// character and at the end.
pub fn replace(s: &str, p: &str, r: &str) -> (res: String)
    ensures
        res@ == replace_all(s@, p@, r@),
{
    let v = chars_of(s);
    let w = chars_of(p);
    let n = v.len();
    let mut out = String::new();
    if w.len() == 0 {
        let mut i: usize = 0;
        assert(v@.subrange(0, n as int) =~= v@);
        while i < n
            invariant
                v@ == s@,
                n == v@.len(),
                i <= n,
                out@ + replace_empty(v@.subrange(i as int, n as int), r@) == replace_empty(v@, r@),
            decreases n - i,
        {
            proof {
                lemma_replace_empty_step(v@, r@, i as int);
            }
            let ghost before = out@;
            out.append(r);
            out.append(s.substring_char(i, i + 1));
            assert(s@.subrange(i as int, i + 1) =~= seq![v@[i as int]]);
            assert(out@ == before + r@ + seq![v@[i as int]]);
            assert(before + (r@ + seq![v@[i as int]] + replace_empty(v@.subrange(i + 1, n as int), r@))
                =~= before + r@ + seq![v@[i as int]] + replace_empty(v@.subrange(i + 1, n as int), r@));
            i = i + 1;
        }
        out.append(r);
        assert(v@.subrange(n as int, n as int) =~= Seq::<char>::empty());
        return out;
    }
    let mut start: usize = 0;
    let mut i: usize = 0;
    assert(v@.subrange(0, n as int) =~= v@);
    assert(v@.subrange(0, 0) =~= Seq::<char>::empty());
    assert(out@ + v@.subrange(0, 0) =~= Seq::<char>::empty());
    while i < n
        invariant
            v@ == s@,
            w@ == p@,
            w@.len() > 0,
            n == v@.len(),
            start <= i <= n,
            out@ + v@.subrange(start as int, i as int) + replace_nonempty(
                v@.subrange(i as int, n as int),
                w@,
                r@,
            ) == replace_nonempty(v@, w@, r@),
        decreases n - i,
    {
        let ghost before = out@;
        let ghost pending = v@.subrange(start as int, i as int);
        if occurs_at_exec(&v, &w, i) {
            proof {
                lemma_replace_match(v@, w@, r@, i as int);
            }
            out.append(s.substring_char(start, i));
            out.append(r);
            i = i + w.len();
            start = i;
            assert(v@.subrange(start as int, i as int) =~= Seq::<char>::empty());
            assert(out@ + v@.subrange(start as int, i as int) + replace_nonempty(
                v@.subrange(i as int, n as int), w@, r@) =~= before + pending + (r@
                + replace_nonempty(v@.subrange(i as int, n as int), w@, r@)));
        } else {
            proof {
                lemma_replace_skip(v@, w@, r@, i as int);
            }
            assert(v@.subrange(start as int, i + 1) =~= pending + seq![v@[i as int]]);
            assert(out@ + v@.subrange(start as int, i + 1) + replace_nonempty(
                v@.subrange(i + 1, n as int), w@, r@) =~= before + pending + (seq![v@[i as int]]
                + replace_nonempty(v@.subrange(i + 1, n as int), w@, r@)));
            i = i + 1;
        }
    }
    let ghost before = out@;
    out.append(s.substring_char(start, n));
    assert(replace_nonempty(v@.subrange(n as int, n as int), w@, r@) =~= Seq::<char>::empty());
    assert(out@ =~= before + v@.subrange(start as int, n as int) + replace_nonempty(
        v@.subrange(n as int, n as int), w@, r@));
    out
}

/// The part of `s` after the prefix `p`, when `s` begins with `p`.
pub fn strip_prefix<'a>(s: &'a str, p: &str) -> (res: Option<&'a str>)
    ensures
        res is Some <==> starts_with_seq(s@, p@),
        res matches Some(t) ==> t@ == s@.subrange(p@.len() as int, s@.len() as int),
{
    let v = chars_of(s);
    let w = chars_of(p);
    if occurs_at_exec(&v, &w, 0) {
        Some(s.substring_char(w.len(), v.len()))
    } else {
        None
    }
}

/// The text `a` followed by `b`.
pub fn concat2(a: &str, b: &str) -> (res: String)
    ensures
        res@ == a@ + b@,
{
    let mut out = a.to_owned();
    out.append(b);
    out
}

/// The text `a`, `b` and `c` in sequence.
pub fn concat3(a: &str, b: &str, c: &str) -> (res: String)
    ensures
        res@ == a@ + b@ + c@,
{
    let mut out = a.to_owned();
    out.append(b);
    out.append(c);
    out
}

} // verus!
