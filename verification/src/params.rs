//! Query parameters of a request: key/value pairs in the order given.
use vstd::prelude::*;
use crate::text::same_text;
use crate::form::pairs_view;

verus! {

/// The index of the first pair of `p` whose key is `key`.
pub open spec fn is_first_key_index(p: Seq<(Seq<char>, Seq<char>)>, key: Seq<char>, i: int) -> bool {
    0 <= i < p.len() && p[i].0 == key && forall|j: int| 0 <= j < i ==> p[j].0 != key
}

/// The value of the first pair of `p` whose key is `key`.
pub open spec fn lookup(p: Seq<(Seq<char>, Seq<char>)>, key: Seq<char>) -> Option<Seq<char>> {
    if exists|i: int| is_first_key_index(p, key, i) {
        Some(p[choose|i: int| is_first_key_index(p, key, i)].1)
    } else {
        None
    }
}

/// No key occurs twice.
pub open spec fn unique_keys(p: Seq<(Seq<char>, Seq<char>)>) -> bool {
    forall|i: int, j: int| 0 <= i < j < p.len() ==> p[i].0 != p[j].0
}

/// `p` after setting `key` to `value`, as `HashMap::insert` does it: the
/// pair of `key` takes the new value in place, or `(key, value)` is added
/// last when `key` is absent.
pub open spec fn with_param(p: Seq<(Seq<char>, Seq<char>)>, key: Seq<char>, value: Seq<char>) -> Seq<(Seq<char>, Seq<char>)> {
    if exists|i: int| is_first_key_index(p, key, i) {
        p.update(choose|i: int| is_first_key_index(p, key, i), (key, value))
    } else {
        p.push((key, value))
    }
}

/// Query parameters: a map from keys to values, as pairs in order, each
/// key at most once.
pub struct Params {
    pairs: Vec<(String, String)>,
}

impl View for Params {
    type V = Seq<(Seq<char>, Seq<char>)>;

    closed spec fn view(&self) -> Seq<(Seq<char>, Seq<char>)> {
        pairs_view(self.pairs@)
    }
}

impl Params {
    #[verifier::type_invariant]
    closed spec fn keys_unique(self) -> bool {
        unique_keys(pairs_view(self.pairs@))
    }

    /// No parameters.
    pub fn new() -> (p: Params)
        ensures
            p@ == Seq::<(Seq<char>, Seq<char>)>::empty(),
    {
        let p = Params { pairs: Vec::new() };
        assert(p@ =~= Seq::<(Seq<char>, Seq<char>)>::empty());
        p
    }

    /// Sets `key` to `value`: an existing pair of `key` takes the new value
    /// in place; otherwise `(key, value)` is added after the others.
    pub fn insert(&mut self, key: String, value: String)
        ensures
            final(self)@ == with_param(old(self)@, key@, value@),
            unique_keys(final(self)@),
    {
        proof {
            use_type_invariant(&*self);
        }
        let ghost p = self@;
        let mut i: usize = 0;
        while i < self.pairs.len()
            invariant
                p == pairs_view(self.pairs@),
                p == old(self)@,
                unique_keys(p),
                i <= self.pairs.len(),
                forall|j: int| 0 <= j < i ==> p[j].0 != key@,
            decreases self.pairs.len() - i,
        {
            if same_text(self.pairs[i].0.as_str(), key.as_str()) {
                assert(is_first_key_index(p, key@, i as int));
                let ghost c = choose|c: int| is_first_key_index(p, key@, c);
                assert(c == i) by {
                    if c < i {
                        assert(p[c].0 != key@);
                    } else if c > i {
                        assert(p[i as int].0 == key@);
                    }
                }
                let mut pairs: Vec<(String, String)> = Vec::new();
                std::mem::swap(&mut pairs, &mut self.pairs);
                pairs.set(i, (key, value));
                assert(pairs_view(pairs@) =~= p.update(i as int, (key@, value@)));
                assert(forall|k: int| 0 <= k < p.len() ==> #[trigger] pairs_view(pairs@)[k].0 == p[k].0);
        assert forall|a: int, b: int| 0 <= a < b < pairs_view(pairs@).len() implies pairs_view(pairs@)[a].0
            != pairs_view(pairs@)[b].0 by {
            if b == p.len() {
                assert(p[a].0 != key@);
            } else {
                assert(p[a].0 != p[b].0);
            }
        }
                assert(unique_keys(pairs_view(pairs@)));
                assert(with_param(p, key@, value@) == p.update(i as int, (key@, value@)));
                self.pairs = pairs;
                return;
            }
            i = i + 1;
        }
        assert(!exists|c: int| is_first_key_index(p, key@, c));
        let mut pairs: Vec<(String, String)> = Vec::new();
        std::mem::swap(&mut pairs, &mut self.pairs);
        pairs.push((key, value));
        assert(pairs_view(pairs@) =~= p.push((key@, value@)));
        assert(forall|k: int| 0 <= k < p.len() ==> #[trigger] pairs_view(pairs@)[k].0 == p[k].0);
        assert forall|a: int, b: int| 0 <= a < b < pairs_view(pairs@).len() implies pairs_view(pairs@)[a].0
            != pairs_view(pairs@)[b].0 by {
            if b == p.len() {
                assert(p[a].0 != key@);
            } else {
                assert(p[a].0 != p[b].0);
            }
        }
        self.pairs = pairs;
    }

    /// The parameters as pairs, in order.
    pub fn pairs(&self) -> (v: Vec<(String, String)>)
        ensures
            pairs_view(v@) == self@,
    {
        let mut v: Vec<(String, String)> = Vec::new();
        let mut i: usize = 0;
        while i < self.pairs.len()
            invariant
                i <= self.pairs.len(),
                pairs_view(v@) == pairs_view(self.pairs@).subrange(0, i as int),
            decreases self.pairs.len() - i,
        {
            let ghost before = v@;
            let k = self.pairs[i].0.clone();
            let x = self.pairs[i].1.clone();
            v.push((k, x));
            assert(v@ == before.push((k, x)));
            assert(pairs_view(v@) =~= pairs_view(before).push((k@, x@)));
            assert(pairs_view(v@) =~= pairs_view(self.pairs@).subrange(0, i + 1));
            i = i + 1;
        }
        assert(pairs_view(self.pairs@).subrange(0, i as int) =~= pairs_view(self.pairs@));
        v
    }

    /// Whether there are no parameters.
    pub fn is_empty(&self) -> (b: bool)
        ensures
            b == (self@.len() == 0),
    {
        self.pairs.len() == 0
    }

    /// The value of the first parameter named `key`.
    pub fn get(&self, key: &str) -> (v: Option<String>)
        ensures
            v is Some <==> lookup(self@, key@) is Some,
            v matches Some(s) ==> Some(s@) == lookup(self@, key@),
    {
        let ghost p = self@;
        let mut i: usize = 0;
        while i < self.pairs.len()
            invariant
                p == self@,
                i <= self.pairs.len(),
                forall|j: int| 0 <= j < i ==> p[j].0 != key@,
            decreases self.pairs.len() - i,
        {
            if same_text(self.pairs[i].0.as_str(), key) {
                assert(is_first_key_index(p, key@, i as int));
                let ghost c = choose|c: int| is_first_key_index(p, key@, c);
                assert(c == i) by {
                    if c < i {
                        assert(p[c].0 != key@);
                    } else if c > i {
                        assert(p[i as int].0 == key@);
                    }
                }
                return Some(self.pairs[i].1.clone());
            }
            i = i + 1;
        }
        assert(!exists|c: int| is_first_key_index(p, key@, c));
        None
    }
}

} // verus!
