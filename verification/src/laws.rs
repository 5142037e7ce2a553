//! Properties of the library as a whole.
use vstd::prelude::*;
use crate::text::{trim_end_char, contains_seq, occurs_at, starts_with_seq, replace_all, replace_nonempty, replace_empty};
use crate::headers::{values_of, without_name, entries_for, inserted, is_first_named};
use crate::params::{lookup, is_first_key_index, with_param, unique_keys};
use crate::errors::{AppError, spec_error_message, spec_error_status};
use crate::kratos::{forwarded, valid_error_id};
use crate::url_rewrite::UrlRewriter;
use crate::flows::common::{spec_rewrite_location_headers, rewritten_locations};
use crate::domain::{FlowType, flow_type_segment};
use crate::direct::route_flow_type;
use crate::hydra::{OidcCall, is_call_request};
use crate::requests::{Method, OutgoingRequest};
use crate::flows::identity::{IdentityAnswer, passes, cookie_entries};
use crate::url_rewrite::{base_of, spec_rewrite_kratos_redirect, spec_rewrite_action_url, apply_first_mapping, redirect_mappings, action_rewrites, first_action_rewrite, swap_host};

verus! {

proof fn lemma_trim_idempotent(s: Seq<char>, c: char)
    ensures
        trim_end_char(trim_end_char(s, c), c) == trim_end_char(s, c),
        trim_end_char(s, c).len() == 0 || trim_end_char(s, c).last() != c,
    decreases s.len(),
{
    if s.len() > 0 && s.last() == c {
        lemma_trim_idempotent(s.drop_last(), c);
    }
}

/// Trailing slashes of the configured URLs do not matter: rewriting with
/// the URLs as configured or without their trailing slashes gives the same
/// redirects and form actions.
pub proof fn law_trailing_slashes_ignored(location: Seq<char>, kratos_url: Seq<char>, public_base: Seq<char>)
    ensures
        spec_rewrite_kratos_redirect(location, base_of(kratos_url), base_of(public_base))
            == spec_rewrite_kratos_redirect(location, kratos_url, public_base),
        spec_rewrite_action_url(location, base_of(kratos_url), base_of(public_base))
            == spec_rewrite_action_url(location, kratos_url, public_base),
{
    lemma_trim_idempotent(kratos_url, '/');
    lemma_trim_idempotent(public_base, '/');
}

/// Upstream and internal errors never show their detail to the browser:
/// the status and the message of a Kratos, Hydra, internal, network,
/// serialization or I/O error do not depend on the detail it carries.
pub proof fn law_error_detail_not_shown(a: String, b: String)
    ensures
        spec_error_message(AppError::Kratos(a)) == spec_error_message(AppError::Kratos(b)),
        spec_error_message(AppError::Hydra(a)) == spec_error_message(AppError::Hydra(b)),
        spec_error_message(AppError::Internal(a)) == spec_error_message(AppError::Internal(b)),
        spec_error_message(AppError::Network(a)) == spec_error_message(AppError::Network(b)),
        spec_error_message(AppError::Serialization(a)) == spec_error_message(AppError::Serialization(b)),
        spec_error_message(AppError::Io(a)) == spec_error_message(AppError::Io(b)),
        spec_error_status(AppError::Kratos(a)) == 502,
        spec_error_status(AppError::Hydra(a)) == 502,
        spec_error_status(AppError::Internal(a)) == 500,
{
}

proof fn lemma_values_of_without(h: Seq<(Seq<char>, Seq<u8>)>, n: Seq<char>, m: Seq<char>)
    ensures
        values_of(without_name(h, n), m) == (if m == n {
            Seq::<Seq<u8>>::empty()
        } else {
            values_of(h, m)
        }),
    decreases h.len(),
{
    if h.len() > 0 {
        lemma_values_of_without(h.drop_last(), n, m);
        let w = without_name(h.drop_last(), n);
        if h.last().0 != n {
            assert(without_name(h, n).drop_last() =~= w);
        }
    }
}

proof fn lemma_values_of_append(h: Seq<(Seq<char>, Seq<u8>)>, n: Seq<char>, vs: Seq<Seq<u8>>, m: Seq<char>)
    ensures
        values_of(h + entries_for(n, vs), m) == (if m == n {
            values_of(h, m) + vs
        } else {
            values_of(h, m)
        }),
    decreases vs.len(),
{
    if vs.len() == 0 {
        assert(h + entries_for(n, vs) =~= h);
        assert(values_of(h, m) + vs =~= values_of(h, m));
    } else {
        lemma_values_of_append(h, n, vs.drop_last(), m);
        let whole = h + entries_for(n, vs);
        assert(whole.drop_last() =~= h + entries_for(n, vs.drop_last()));
        assert(whole.last() == (n, vs.last()));
        if m == n {
            assert(values_of(h, m) + vs =~= (values_of(h, m) + vs.drop_last()).push(vs.last()));
        }
    }
}

proof fn lemma_values_of_concat(a: Seq<(Seq<char>, Seq<u8>)>, b: Seq<(Seq<char>, Seq<u8>)>, m: Seq<char>)
    ensures
        values_of(a + b, m) == values_of(a, m) + values_of(b, m),
    decreases b.len(),
{
    if b.len() == 0 {
        assert(a + b =~= a);
        assert(values_of(a, m) + values_of(b, m) =~= values_of(a, m));
    } else {
        lemma_values_of_concat(a, b.drop_last(), m);
        assert((a + b).drop_last() =~= a + b.drop_last());
        assert((a + b).last() == b.last());
        if b.last().0 == m {
            assert(values_of(a, m) + values_of(b, m) =~= (values_of(a, m) + values_of(b.drop_last(), m)).push(b.last().1));
        }
    }
}

proof fn lemma_values_of_absent(a: Seq<(Seq<char>, Seq<u8>)>, m: Seq<char>)
    requires
        forall|j: int| 0 <= j < a.len() ==> a[j].0 != m,
    ensures
        values_of(a, m) == Seq::<Seq<u8>>::empty(),
    decreases a.len(),
{
    if a.len() > 0 {
        lemma_values_of_absent(a.drop_last(), m);
    }
}

proof fn lemma_first_named_exists(h: Seq<(Seq<char>, Seq<u8>)>, name: Seq<char>, j: int)
    requires
        0 <= j < h.len(),
        h[j].0 == name,
    ensures
        exists|k: int| is_first_named(h, name, k),
    decreases j,
{
    if exists|l: int| 0 <= l < j && h[l].0 == name {
        let l = choose|l: int| 0 <= l < j && h[l].0 == name;
        lemma_first_named_exists(h, name, l);
    } else {
        assert(is_first_named(h, name, j));
    }
}

/// Writing a header and reading it back: after `insert(name, v)` the map
/// holds exactly `v` under `name`, and every other name keeps its values.
pub proof fn law_header_insert_then_get(h: Seq<(Seq<char>, Seq<u8>)>, name: Seq<char>, v: Seq<u8>, other: Seq<char>)
    ensures
        values_of(inserted(h, name, v), name) == seq![v],
        other != name ==> values_of(inserted(h, name, v), other) == values_of(h, other),
{
    if exists|i: int| is_first_named(h, name, i) {
        let f = choose|i: int| is_first_named(h, name, i);
        let pre = h.subrange(0, f);
        let rest = h.subrange(f + 1, h.len() as int);
        let e = (name, v);
        assert(pre.push(e).drop_last() =~= pre);
        lemma_values_of_absent(pre, name);
        lemma_values_of_concat(pre.push(e), without_name(rest, name), name);
        lemma_values_of_without(rest, name, name);
        assert(Seq::<Seq<u8>>::empty().push(v) + Seq::<Seq<u8>>::empty() =~= seq![v]);
        if other != name {
            lemma_values_of_concat(pre.push(e), without_name(rest, name), other);
            lemma_values_of_without(rest, name, other);
            assert(h =~= pre.push(h[f]) + rest);
            assert(pre.push(h[f]).drop_last() =~= pre);
            lemma_values_of_concat(pre.push(h[f]), rest, other);
            assert(values_of(pre, other) + values_of(rest, other) =~= values_of(pre, other) + values_of(rest, other)
                + Seq::<Seq<u8>>::empty());
        }
    } else {
        assert forall|j: int| 0 <= j < h.len() implies h[j].0 != name by {
            if h[j].0 == name {
                lemma_first_named_exists(h, name, j);
            }
        }
        lemma_values_of_absent(h, name);
        assert(h.push((name, v)).drop_last() =~= h);
        assert(Seq::<Seq<u8>>::empty().push(v) =~= seq![v]);
    }
}

/// Appending headers and reading them back: `append_all(name, vs)` adds
/// `vs` after the values already under `name` and leaves other names alone.
pub proof fn law_header_append_then_get(h: Seq<(Seq<char>, Seq<u8>)>, name: Seq<char>, vs: Seq<Seq<u8>>, other: Seq<char>)
    ensures
        values_of(h + entries_for(name, vs), name) == values_of(h, name) + vs,
        other != name ==> values_of(h + entries_for(name, vs), other) == values_of(h, other),
{
    lemma_values_of_append(h, name, vs, name);
    lemma_values_of_append(h, name, vs, other);
}

proof fn lemma_forwarded_names(incoming: Seq<(Seq<char>, Seq<u8>)>, keys: Seq<Seq<char>>, m: Seq<char>)
    ensures
        values_of(forwarded(incoming, keys), m) == (if keys.contains(m) {
            values_of(forwarded(incoming, keys), m)
        } else {
            Seq::<Seq<u8>>::empty()
        }),
        !keys.contains(m) ==> values_of(forwarded(incoming, keys), m).len() == 0,
    decreases keys.len(),
{
    if keys.len() > 0 {
        lemma_forwarded_names(incoming, keys.drop_last(), m);
        lemma_values_of_append(forwarded(incoming, keys.drop_last()), keys.last(), values_of(incoming, keys.last()), m);
        if !keys.contains(m) {
            assert(!keys.drop_last().contains(m)) by {
                if keys.drop_last().contains(m) {
                    let i = choose|i: int| 0 <= i < keys.drop_last().len() && keys.drop_last()[i] == m;
                    assert(keys[i] == m);
                }
            }
            assert(keys.last() != m) by {
                assert(keys[keys.len() - 1] == keys.last());
            }
        }
    }
}

/// Only the listed browser headers reach Kratos: a header name outside the
/// forwarded keys has no value in the forwarded headers.
pub proof fn law_only_listed_headers_forwarded(incoming: Seq<(Seq<char>, Seq<u8>)>, keys: Seq<Seq<char>>, name: Seq<char>)
    requires
        !keys.contains(name),
    ensures
        values_of(forwarded(incoming, keys), name).len() == 0,
{
    lemma_forwarded_names(incoming, keys, name);
}

/// A valid error id cannot leave the `id` query parameter: it holds no
/// `/`, `?`, `#`, `&`, `%` or `.`.
pub proof fn law_valid_error_id_is_url_safe(id: Seq<char>, i: int)
    requires
        valid_error_id(id),
        0 <= i < id.len(),
    ensures
        id[i] != '/' && id[i] != '?' && id[i] != '#' && id[i] != '&' && id[i] != '%' && id[i] != '.',
{
    assert(crate::kratos::error_id_char(id[i]));
}

proof fn lemma_first_key_exists(p: Seq<(Seq<char>, Seq<char>)>, key: Seq<char>, j: int)
    requires
        0 <= j < p.len(),
        p[j].0 == key,
    ensures
        exists|k: int| is_first_key_index(p, key, k),
    decreases j,
{
    if exists|l: int| 0 <= l < j && p[l].0 == key {
        let l = choose|l: int| 0 <= l < j && p[l].0 == key;
        lemma_first_key_exists(p, key, l);
    } else {
        assert(is_first_key_index(p, key, j));
    }
}

/// The first index of `other` in `q` when `q` differs from `p` only at
/// index `f`, whose key stays `key`, and `other` is another key.
proof fn lemma_lookup_other_unchanged(
    p: Seq<(Seq<char>, Seq<char>)>,
    q: Seq<(Seq<char>, Seq<char>)>,
    key: Seq<char>,
    other: Seq<char>,
)
    requires
        other != key,
        q.len() >= p.len(),
        forall|k: int| 0 <= k < p.len() ==> #[trigger] q[k].0 == p[k].0 && (p[k].0 != key ==> q[k] == p[k]),
        forall|k: int| p.len() <= k < q.len() ==> #[trigger] q[k].0 == key,
    ensures
        lookup(q, other) == lookup(p, other),
{
    if exists|i: int| is_first_key_index(p, other, i) {
        let i = choose|i: int| is_first_key_index(p, other, i);
        assert(is_first_key_index(q, other, i));
        let j = choose|j: int| is_first_key_index(q, other, j);
        assert(i == j) by {
            if j < i {
                assert(q[j].0 == p[j].0);
            } else if i < j {
                assert(q[i].0 == other);
            }
        }
    } else {
        assert forall|j: int| 0 <= j < q.len() implies q[j].0 != other by {
            if q[j].0 == other {
                assert(j < p.len());
                lemma_first_key_exists(p, other, j);
            }
        }
    }
}

/// Setting a parameter and reading it back, as with a `HashMap`: the key
/// reads the new value, every other key keeps its value, and keys stay
/// unique.
pub proof fn law_params_insert_then_get(p: Seq<(Seq<char>, Seq<char>)>, key: Seq<char>, value: Seq<char>, other: Seq<char>)
    ensures
        lookup(with_param(p, key, value), key) == Some(value),
        other != key ==> lookup(with_param(p, key, value), other) == lookup(p, other),
        unique_keys(p) ==> unique_keys(with_param(p, key, value)),
{
    let q = with_param(p, key, value);
    if exists|i: int| is_first_key_index(p, key, i) {
        let i = choose|i: int| is_first_key_index(p, key, i);
        assert(q == p.update(i, (key, value)));
        assert(is_first_key_index(q, key, i));
        let j = choose|j: int| is_first_key_index(q, key, j);
        assert(i == j) by {
            if j < i {
                assert(q[j].0 == p[j].0);
            } else if i < j {
                assert(q[i].0 == key);
            }
        }
        if other != key {
            lemma_lookup_other_unchanged(p, q, key, other);
        }
    } else {
        let n = p.len() as int;
        assert(q == p.push((key, value)));
        assert forall|j: int| 0 <= j < n implies q[j].0 != key by {
            if q[j].0 == key {
                assert(p[j].0 == key);
                lemma_first_key_exists(p, key, j);
            }
        }
        assert(is_first_key_index(q, key, n));
        let j = choose|j: int| is_first_key_index(q, key, j);
        assert(j == n) by {
            if j < n {
                assert(q[j].0 != key);
            }
        }
        if other != key {
            lemma_lookup_other_unchanged(p, q, key, other);
        }
        if unique_keys(p) {
            assert forall|a: int, b: int| 0 <= a < b < q.len() implies q[a].0 != q[b].0 by {
                if b < n {
                    assert(p[a].0 != p[b].0);
                }
            }
        }
    }
}


proof fn lemma_occurs_prefix(s: Seq<char>, p: Seq<char>, q: Seq<char>, i: int)
    requires
        occurs_at(s, p, i),
        q.len() <= p.len(),
        p.subrange(0, q.len() as int) == q,
    ensures
        occurs_at(s, q, i),
{
    assert(s.subrange(i, i + q.len()) =~= s.subrange(i, i + p.len()).subrange(0, q.len() as int));
}

proof fn lemma_no_mapping_applies(s: Seq<char>, m: Seq<(Seq<char>, Seq<char>)>)
    requires
        forall|j: int| 0 <= j < m.len() ==> !contains_seq(s, #[trigger] m[j].0),
    ensures
        apply_first_mapping(s, m) == s,
    decreases m.len(),
{
    if m.len() > 0 {
        assert(!contains_seq(s, m[0].0));
        assert forall|j: int| 0 <= j < m.drop_first().len() implies !contains_seq(s, #[trigger] m.drop_first()[j].0) by {
            assert(m.drop_first()[j] == m[j + 1]);
        }
        lemma_no_mapping_applies(s, m.drop_first());
    }
}

proof fn lemma_no_action_rewrite(action: Seq<char>, kb: Seq<char>, pb: Seq<char>, m: Seq<(Seq<char>, Seq<char>)>)
    requires
        !starts_with_seq(action, kb),
    ensures
        first_action_rewrite(action, kb, pb, m) is None,
    decreases m.len(),
{
    if m.len() > 0 {
        if starts_with_seq(action, kb + m[0].0) {
            assert((kb + m[0].0).subrange(0, kb.len() as int) =~= kb);
            lemma_occurs_prefix(action, kb + m[0].0, kb, 0);
        }
        lemma_no_action_rewrite(action, kb, pb, m.drop_first());
    }
}

/// Every Kratos path of the rewriting tables begins with `/self-service/`.
proof fn lemma_paths_are_self_service()
    ensures
        forall|j: int| 0 <= j < redirect_mappings().len() ==> (#[trigger] redirect_mappings()[j]).0.len() >= 14
            && redirect_mappings()[j].0.subrange(0, 14) == "/self-service/"@,
{
    reveal_strlit("/self-service/");
    reveal_strlit("/self-service/login/browser");
    reveal_strlit("/self-service/registration/browser");
    reveal_strlit("/self-service/recovery/browser");
    reveal_strlit("/self-service/verification/browser");
    reveal_strlit("/self-service/settings/browser");
    reveal_strlit("/self-service/login");
    reveal_strlit("/self-service/registration");
    reveal_strlit("/self-service/recovery");
    reveal_strlit("/self-service/verification");
    reveal_strlit("/self-service/settings");
    assert forall|j: int| 0 <= j < redirect_mappings().len() implies (#[trigger] redirect_mappings()[j]).0.len() >= 14
        && redirect_mappings()[j].0.subrange(0, 14) == "/self-service/"@ by {
        assert(redirect_mappings()[j].0.subrange(0, 14) =~= "/self-service/"@);
    }
}

/// Redirects elsewhere pass through: a location that does not begin with
/// the Kratos base and mentions no `/self-service/` path is left as it is,
/// both as a redirect and as a form action.
pub proof fn law_foreign_location_unchanged(location: Seq<char>, kratos_url: Seq<char>, public_base: Seq<char>)
    requires
        !starts_with_seq(location, base_of(kratos_url)),
        !contains_seq(location, "/self-service/"@),
    ensures
        spec_rewrite_kratos_redirect(location, kratos_url, public_base) == location,
        spec_rewrite_action_url(location, kratos_url, public_base) == location,
{
    lemma_paths_are_self_service();
    assert(swap_host(location, kratos_url, public_base) == location);
    assert forall|j: int| 0 <= j < redirect_mappings().len() implies !contains_seq(location, #[trigger] redirect_mappings()[j].0) by {
        if contains_seq(location, redirect_mappings()[j].0) {
            let i = choose|i: int| occurs_at(location, redirect_mappings()[j].0, i);
            lemma_occurs_prefix(location, redirect_mappings()[j].0, "/self-service/"@, i);
        }
    }
    lemma_no_mapping_applies(location, redirect_mappings());
    lemma_no_action_rewrite(location, base_of(kratos_url), base_of(public_base), action_rewrites());
}


proof fn lemma_first_rewrite_at(action: Seq<char>, kb: Seq<char>, pb: Seq<char>, m: Seq<(Seq<char>, Seq<char>)>, i: int)
    requires
        0 <= i < m.len(),
        starts_with_seq(action, kb + m[i].0),
        forall|j: int| 0 <= j < i ==> !starts_with_seq(action, kb + #[trigger] m[j].0),
    ensures
        first_action_rewrite(action, kb, pb, m) == Some(
            pb + m[i].1 + action.subrange((kb + m[i].0).len() as int, action.len() as int),
        ),
    decreases i,
{
    if i > 0 {
        assert(!starts_with_seq(action, kb + m[0].0));
        let r = m.drop_first();
        assert(r[i - 1] == m[i]);
        assert forall|j: int| 0 <= j < i - 1 implies !starts_with_seq(action, kb + #[trigger] r[j].0) by {
            assert(r[j] == m[j + 1]);
        }
        lemma_first_rewrite_at(action, kb, pb, r, i - 1);
    }
}

proof fn lemma_differ_not_prefix(kb: Seq<char>, pj: Seq<char>, pi: Seq<char>, suffix: Seq<char>, t: int)
    requires
        0 <= t < pj.len(),
        t < pi.len(),
        pj[t] != pi[t],
    ensures
        !starts_with_seq(kb + pi + suffix, kb + pj),
{
    let a = kb + pi + suffix;
    if starts_with_seq(a, kb + pj) {
        assert(a.subrange(0, (kb + pj).len() as int)[kb.len() + t] == (kb + pj)[kb.len() + t]);
        assert(a[kb.len() + t] == pi[t]);
    }
}

/// Form actions on Kratos' self-service paths post to the application
/// routes with the rest of the URL (the query string) unchanged:
/// `<kratos>/self-service/<flow><rest>` becomes `<public>/<flow><rest>`.
pub proof fn law_action_rewrite_keeps_query(kratos_url: Seq<char>, public_base: Seq<char>, rest: Seq<char>, i: int)
    requires
        0 <= i < action_rewrites().len(),
    ensures
        spec_rewrite_action_url(base_of(kratos_url) + action_rewrites()[i].0 + rest, kratos_url, public_base)
            == base_of(public_base) + action_rewrites()[i].1 + rest,
{
    reveal_strlit("/self-service/login");
    reveal_strlit("/self-service/registration");
    reveal_strlit("/self-service/recovery");
    reveal_strlit("/self-service/verification");
    reveal_strlit("/self-service/settings");
    let kb = base_of(kratos_url);
    let pb = base_of(public_base);
    let m = action_rewrites();
    let action = kb + m[i].0 + rest;
    assert(action.subrange(0, (kb + m[i].0).len() as int) =~= kb + m[i].0);
    assert forall|j: int| 0 <= j < i implies !starts_with_seq(action, kb + #[trigger] m[j].0) by {
        let t: int = if m[j].0[14] != m[i].0[14] {
            14
        } else {
            16
        };
        lemma_differ_not_prefix(kb, m[j].0, m[i].0, rest, t);
    }
    lemma_first_rewrite_at(action, kb, pb, m, i);
    assert(action.subrange((kb + m[i].0).len() as int, action.len() as int) =~= rest);
}


/// Rewriting the locations of an answer keeps every other header: the
/// values under any name but `location` are those of the answer.
pub proof fn law_location_rewrite_keeps_other_headers<R: UrlRewriter>(r: &R, h: Seq<(Seq<char>, Seq<u8>)>, name: Seq<char>)
    requires
        name != "location"@,
    ensures
        values_of(spec_rewrite_location_headers(r, h), name) == values_of(h, name),
{
    lemma_values_of_append(without_name(h, "location"@), "location"@, rewritten_locations(r, values_of(h, "location"@)), name);
    lemma_values_of_without(h, "location"@, name);
}


proof fn lemma_replace_absent(s: Seq<char>, p: Seq<char>, r: Seq<char>)
    requires
        p.len() > 0,
        !contains_seq(s, p),
    ensures
        replace_nonempty(s, p, r) == s,
    decreases s.len(),
{
    if s.len() >= p.len() {
        assert(!occurs_at(s, p, 0));
        let t = s.drop_first();
        assert forall|i: int| !occurs_at(t, p, i) by {
            if occurs_at(t, p, i) {
                assert(s.subrange(i + 1, i + 1 + p.len()) =~= t.subrange(i, i + p.len()));
                assert(occurs_at(s, p, i + 1));
            }
        }
        lemma_replace_absent(t, p, r);
        assert(seq![s[0]] + t =~= s);
    }
}

proof fn lemma_replace_at_start(p: Seq<char>, rest: Seq<char>, r: Seq<char>)
    requires
        p.len() > 0,
    ensures
        replace_nonempty(p + rest, p, r) == r + replace_nonempty(rest, p, r),
{
    let s = p + rest;
    assert(s.subrange(0, p.len() as int) =~= p);
    assert(s.subrange(p.len() as int, s.len() as int) =~= rest);
}

proof fn lemma_replace_after(a: Seq<char>, b: Seq<char>, p: Seq<char>, r: Seq<char>)
    requires
        p.len() > 0,
        forall|t: int| 0 <= t < a.len() ==> !occurs_at(a + b, p, t),
    ensures
        replace_nonempty(a + b, p, r) == a + replace_nonempty(b, p, r),
    decreases a.len(),
{
    if a.len() > 0 {
        let s = a + b;
        assert(!occurs_at(s, p, 0));
        let a2 = a.drop_first();
        assert(s.drop_first() =~= a2 + b);
        assert forall|t: int| 0 <= t < a2.len() implies !occurs_at(a2 + b, p, t) by {
            if occurs_at(a2 + b, p, t) {
                assert(s.subrange(t + 1, t + 1 + p.len()) =~= (a2 + b).subrange(t, t + p.len()));
                assert(occurs_at(s, p, t + 1));
            }
        }
        lemma_replace_after(a2, b, p, r);
        if s.len() >= p.len() {
            assert(seq![s[0]] + (a2 + replace_nonempty(b, p, r)) =~= a + replace_nonempty(b, p, r));
        } else {
            assert(b.len() < p.len());
            assert(replace_nonempty(b, p, r) == b);
            assert(replace_nonempty(a2 + b, p, r) == a2 + b);
        }
    } else {
        assert(a + b =~= b);
        assert(a + replace_nonempty(b, p, r) =~= replace_nonempty(b, p, r));
    }
}

proof fn lemma_first_mapping_at(s: Seq<char>, m: Seq<(Seq<char>, Seq<char>)>, i: int)
    requires
        0 <= i < m.len(),
        contains_seq(s, m[i].0),
        forall|j: int| 0 <= j < i ==> !contains_seq(s, #[trigger] m[j].0),
    ensures
        apply_first_mapping(s, m) == replace_all(s, m[i].0, m[i].1),
    decreases i,
{
    if i > 0 {
        assert(!contains_seq(s, m[0].0));
        let r = m.drop_first();
        assert(r[i - 1] == m[i]);
        assert forall|j: int| 0 <= j < i - 1 implies !contains_seq(s, #[trigger] r[j].0) by {
            assert(r[j] == m[j + 1]);
        }
        lemma_first_mapping_at(s, r, i - 1);
    }
}


/// The shape of the Kratos browser paths: `/self-service/<flow>/browser`,
/// whose only slashes are at 0, 13 and 8 before the end, and whose flow
/// name does not begin with `sel`.
proof fn lemma_browser_path_shape(i: int)
    requires
        0 <= i < 5,
    ensures
        ({
            let p = redirect_mappings()[i].0;
            &&& p.len() >= 22
            &&& p.subrange(0, 14) == "/self-service/"@
            &&& forall|o: int| 0 < o < p.len() && p[o] == '/' ==> o == 13 || o == p.len() - 8
            &&& !(p[14] == 's' && p[15] == 'e' && p[16] == 'l')
            &&& p[p.len() - 7] == 'b'
        }),
{
    reveal_strlit("/self-service/");
    reveal_strlit("/self-service/login/browser");
    reveal_strlit("/self-service/registration/browser");
    reveal_strlit("/self-service/recovery/browser");
    reveal_strlit("/self-service/verification/browser");
    reveal_strlit("/self-service/settings/browser");
    let p = redirect_mappings()[i].0;
    assert(p.subrange(0, 14) =~= "/self-service/"@);
}


proof fn lemma_browser_paths_differ(i: int, j: int)
    requires
        0 <= i < 5,
        0 <= j < 5,
        i != j,
    ensures
        redirect_mappings()[i].0[14] != redirect_mappings()[j].0[14] || redirect_mappings()[i].0[16]
            != redirect_mappings()[j].0[16],
{
    reveal_strlit("/self-service/login/browser");
    reveal_strlit("/self-service/registration/browser");
    reveal_strlit("/self-service/recovery/browser");
    reveal_strlit("/self-service/verification/browser");
    reveal_strlit("/self-service/settings/browser");
}

proof fn lemma_only_occurrence(pb: Seq<char>, q: Seq<char>, i: int, j: int, t: int)
    requires
        0 <= j <= i < 5,
        forall|k: int| 0 <= k < q.len() ==> q[k] != '/',
        forall|u: int| 0 <= u < pb.len() ==> !occurs_at(pb + "/self-service/"@, "/self-service/"@, u),
        occurs_at(pb + redirect_mappings()[i].0 + q, redirect_mappings()[j].0, t),
    ensures
        j == i && t == pb.len(),
{
    reveal_strlit("/self-service/");
    lemma_browser_path_shape(i);
    lemma_browser_path_shape(j);
    let pi = redirect_mappings()[i].0;
    let pj = redirect_mappings()[j].0;
    let s = pb + pi + q;
    let ss = "/self-service/"@;
    assert forall|k: int| 0 <= k < pj.len() implies s[t + k] == pj[k] by {
        assert(s.subrange(t, t + pj.len())[k] == pj[k]);
    }
    assert(pj[0] == ss[0]);
    assert(pj[1] == ss[1] && pj[2] == ss[2] && pj[3] == ss[3]);
    if t < pb.len() {
        let w = pb + ss;
        assert(w.subrange(t, t + 14) =~= ss) by {
            assert forall|k: int| 0 <= k < 14 implies w.subrange(t, t + 14)[k] == ss[k] by {
                assert(pj[k] == ss[k]);
                if t + k < pb.len() {
                    assert(w[t + k] == pb[t + k]);
                    assert(s[t + k] == pb[t + k]);
                } else {
                    assert(w[t + k] == ss[t + k - pb.len()]);
                    assert(s[t + k] == pi[t + k - pb.len()]);
                    assert(pi[t + k - pb.len()] == ss[t + k - pb.len()]);
                }
            }
        }
        assert(occurs_at(w, ss, t));
    } else if t >= pb.len() + pi.len() {
        assert(s[t] == q[t - pb.len() - pi.len()]);
    } else if t > pb.len() {
        let o = t - pb.len();
        assert(s[t] == pi[o]);
        assert(s[t + 1] == pi[o + 1]);
        if o == 13 {
            assert(s[t + 2] == pi[o + 2]);
            assert(s[t + 3] == pi[o + 3]);
        }
    } else {
        if j != i {
            lemma_browser_paths_differ(i, j);
            assert(s[t + 14] == pi[14]);
            assert(s[t + 16] == pi[16]);
        }
    }
}

/// Redirects into a Kratos browser flow come back to the application route
/// with their query unchanged: `<kratos>/self-service/<flow>/browser<q>`
/// becomes `<public>/<flow><q>`, for a query without `/` that does not
/// repeat the Kratos base, and a public base that holds no
/// `/self-service/` of its own (even across its end).
pub proof fn law_redirect_keeps_query(kratos_url: Seq<char>, public_base: Seq<char>, q: Seq<char>, i: int)
    requires
        0 <= i < 5,
        base_of(kratos_url).len() > 0,
        !contains_seq(redirect_mappings()[i].0 + q, base_of(kratos_url)),
        forall|k: int| 0 <= k < q.len() ==> q[k] != '/',
        forall|u: int| 0 <= u < base_of(public_base).len() ==> !occurs_at(
            base_of(public_base) + "/self-service/"@,
            "/self-service/"@,
            u,
        ),
    ensures
        spec_rewrite_kratos_redirect(base_of(kratos_url) + redirect_mappings()[i].0 + q, kratos_url, public_base)
            == base_of(public_base) + redirect_mappings()[i].1 + q,
{
    reveal_strlit("/self-service/");
    lemma_browser_path_shape(i);
    let kb = base_of(kratos_url);
    let pb = base_of(public_base);
    let m = redirect_mappings();
    let pi = m[i].0;
    let li = m[i].1;
    let loc = kb + pi + q;
    assert(loc =~= kb + (pi + q));
    assert(loc.subrange(0, kb.len() as int) =~= kb);
    lemma_replace_at_start(kb, pi + q, pb);
    lemma_replace_absent(pi + q, kb, pb);
    let s = pb + pi + q;
    assert(swap_host(loc, kratos_url, public_base) =~= s);
    assert forall|j: int| 0 <= j < i implies !contains_seq(s, #[trigger] m[j].0) by {
        if contains_seq(s, m[j].0) {
            let t = choose|t: int| occurs_at(s, m[j].0, t);
            lemma_only_occurrence(pb, q, i, j, t);
        }
    }
    assert(s.subrange(pb.len() as int, (pb.len() + pi.len()) as int) =~= pi);
    assert(occurs_at(s, pi, pb.len() as int));
    lemma_first_mapping_at(s, m, i);
    assert(s =~= pb + (pi + q));
    assert forall|t: int| 0 <= t < pb.len() implies !occurs_at(pb + (pi + q), pi, t) by {
        if occurs_at(pb + (pi + q), pi, t) {
            lemma_only_occurrence(pb, q, i, i, t);
        }
    }
    lemma_replace_after(pb, pi + q, pi, li);
    lemma_replace_at_start(pi, q, li);
    assert(pi[0] == '/') by {
        assert(pi.subrange(0, 14)[0] == "/self-service/"@[0]);
    }
    assert forall|t: int| !occurs_at(q, pi, t) by {
        if occurs_at(q, pi, t) {
            assert(q.subrange(t, t + pi.len())[0] == pi[0]);
        }
    }
    lemma_replace_absent(q, pi, li);
    assert(pb + (li + q) =~= pb + li + q);
}


/// The flow names of the Kratos self-service routes.
pub open spec fn self_service_flow_name(name: Seq<char>) -> bool {
    name == "login"@ || name == "registration"@ || name == "recovery"@ || name == "verification"@ || name == "settings"@
}

/// The index of the mappings for the flow `name`: its browser path and
/// its bare path both map to the route `/<name>`.
proof fn lemma_mapping_of_flow(name: Seq<char>) -> (i: int)
    requires
        self_service_flow_name(name),
    ensures
        0 <= i < 5,
        redirect_mappings()[i].0 == "/self-service/"@ + name + "/browser"@,
        redirect_mappings()[i].1 == "/"@ + name,
        action_rewrites()[i].0 == "/self-service/"@ + name,
        action_rewrites()[i].1 == "/"@ + name,
{
    reveal_strlit("/self-service/");
    reveal_strlit("/browser");
    reveal_strlit("/");
    reveal_strlit("login");
    reveal_strlit("registration");
    reveal_strlit("recovery");
    reveal_strlit("verification");
    reveal_strlit("settings");
    reveal_strlit("/self-service/login/browser");
    reveal_strlit("/self-service/registration/browser");
    reveal_strlit("/self-service/recovery/browser");
    reveal_strlit("/self-service/verification/browser");
    reveal_strlit("/self-service/settings/browser");
    reveal_strlit("/self-service/login");
    reveal_strlit("/self-service/registration");
    reveal_strlit("/self-service/recovery");
    reveal_strlit("/self-service/verification");
    reveal_strlit("/self-service/settings");
    reveal_strlit("/login");
    reveal_strlit("/registration");
    reveal_strlit("/recovery");
    reveal_strlit("/verification");
    reveal_strlit("/settings");
    let i: int = if name == "login"@ {
        0
    } else if name == "registration"@ {
        1
    } else if name == "recovery"@ {
        2
    } else if name == "verification"@ {
        3
    } else {
        4
    };
    assert(redirect_mappings()[i].0 =~= "/self-service/"@ + name + "/browser"@);
    assert(redirect_mappings()[i].1 =~= "/"@ + name);
    assert(action_rewrites()[i].0 =~= "/self-service/"@ + name);
    assert(action_rewrites()[i].1 =~= "/"@ + name);
    i
}

/// A redirect into a Kratos browser flow lands on the application route of
/// that same flow, with its query unchanged:
/// `<kratos>/self-service/<flow>/browser<q>` becomes `<public>/<flow><q>`
/// for each of login, registration, recovery, verification and settings
/// (a query without `/` that does not repeat the Kratos base, and a public
/// base that holds no `/self-service/` of its own).
pub proof fn law_browser_redirect_route(kratos_url: Seq<char>, public_base: Seq<char>, name: Seq<char>, q: Seq<char>)
    requires
        self_service_flow_name(name),
        base_of(kratos_url).len() > 0,
        !contains_seq("/self-service/"@ + name + "/browser"@ + q, base_of(kratos_url)),
        forall|k: int| 0 <= k < q.len() ==> q[k] != '/',
        forall|u: int| 0 <= u < base_of(public_base).len() ==> !occurs_at(
            base_of(public_base) + "/self-service/"@,
            "/self-service/"@,
            u,
        ),
    ensures
        spec_rewrite_kratos_redirect(
            base_of(kratos_url) + "/self-service/"@ + name + "/browser"@ + q,
            kratos_url,
            public_base,
        ) == base_of(public_base) + "/"@ + name + q,
{
    let i = lemma_mapping_of_flow(name);
    let path = "/self-service/"@ + name + "/browser"@;
    assert(base_of(kratos_url) + "/self-service/"@ + name + "/browser"@ + q =~= base_of(kratos_url) + path + q);
    assert(base_of(public_base) + "/"@ + name + q =~= base_of(public_base) + ("/"@ + name) + q);
    law_redirect_keeps_query(kratos_url, public_base, q, i);
}

/// A form action on a Kratos self-service path posts to the application
/// route of that same flow: `<kratos>/self-service/<flow><rest>` becomes
/// `<public>/<flow><rest>` for each of the five flows.
pub proof fn law_action_route(kratos_url: Seq<char>, public_base: Seq<char>, name: Seq<char>, rest: Seq<char>)
    requires
        self_service_flow_name(name),
    ensures
        spec_rewrite_action_url(base_of(kratos_url) + "/self-service/"@ + name + rest, kratos_url, public_base)
            == base_of(public_base) + "/"@ + name + rest,
{
    let i = lemma_mapping_of_flow(name);
    assert(base_of(kratos_url) + "/self-service/"@ + name + rest =~= base_of(kratos_url) + ("/self-service/"@ + name)
        + rest);
    assert(base_of(public_base) + "/"@ + name + rest =~= base_of(public_base) + ("/"@ + name) + rest);
    law_action_rewrite_keeps_query(kratos_url, public_base, rest, i);
}

/// Each direct route reads the flow type whose Kratos path segment is the
/// route's own name, and each of the five form flows is served by the route
/// named after it.
pub proof fn law_route_names_flow(name: Seq<char>, t: FlowType)
    ensures
        route_flow_type(name) == Some(t) ==> flow_type_segment(t) == name,
        (t == FlowType::Login || t == FlowType::Registration || t == FlowType::Recovery || t == FlowType::Verification
            || t == FlowType::Settings) ==> route_flow_type(flow_type_segment(t)) == Some(t),
{
    reveal_strlit("login");
    reveal_strlit("registration");
    reveal_strlit("recovery");
    reveal_strlit("verification");
    reveal_strlit("settings");
    assert("login"@.len() == 5 && "registration"@.len() == 12 && "recovery"@.len() == 8);
    assert("verification"@.len() == 12 && "settings"@.len() == 8);
    assert("registration"@[0] != "verification"@[0]);
    assert("recovery"@[0] != "settings"@[0]);
}

/// The requests to the Hydra admin API: each goes to the admin URL, the
/// Hydra path of its call and the challenge, with no header; reading a
/// login, consent or logout request is a GET, and accepting or rejecting
/// one is a PUT.
pub proof fn law_hydra_requests(req: OutgoingRequest, a: Seq<char>, call: OidcCall, c: Seq<char>)
    requires
        is_call_request(req, a, call, c),
    ensures
        req.headers@.len() == 0,
        call == OidcCall::GetLogin ==> req.method == Method::Get && req.url@ == a
            + "/oauth2/auth/requests/login?login_challenge="@ + c,
        call == OidcCall::AcceptLogin ==> req.method == Method::Put && req.url@ == a
            + "/oauth2/auth/requests/login/accept?login_challenge="@ + c,
        call == OidcCall::RejectLogin ==> req.method == Method::Put && req.url@ == a
            + "/oauth2/auth/requests/login/reject?login_challenge="@ + c,
        call == OidcCall::GetConsent ==> req.method == Method::Get && req.url@ == a
            + "/oauth2/auth/requests/consent?consent_challenge="@ + c,
        call == OidcCall::AcceptConsent ==> req.method == Method::Put && req.url@ == a
            + "/oauth2/auth/requests/consent/accept?consent_challenge="@ + c,
        call == OidcCall::RejectConsent ==> req.method == Method::Put && req.url@ == a
            + "/oauth2/auth/requests/consent/reject?consent_challenge="@ + c,
        call == OidcCall::GetLogout ==> req.method == Method::Get && req.url@ == a
            + "/oauth2/auth/requests/logout?logout_challenge="@ + c,
        call == OidcCall::AcceptLogout ==> req.method == Method::Put && req.url@ == a
            + "/oauth2/auth/requests/logout/accept?logout_challenge="@ + c,
{
}

/// Kratos' cookies reach the browser: whenever a flow read or a submitted
/// form is passed on (a redirect or a flow to read), the headers handed on
/// carry every `set-cookie` value of Kratos' answer, in order, and the
/// answer's status.
pub proof fn law_identity_answer_keeps_cookies<R: UrlRewriter>(
    r: &R,
    a: IdentityAnswer,
    status: u16,
    answer: Seq<(Seq<char>, Seq<u8>)>,
)
    requires
        passes(r, a, status, answer),
    ensures
        match a {
            IdentityAnswer::Redirect { status_code, headers } => status_code == status && values_of(
                headers@,
                "set-cookie"@,
            ) == values_of(answer, "set-cookie"@),
            IdentityAnswer::ReadFlow { status_code, headers } => status_code == status && values_of(
                headers@,
                "set-cookie"@,
            ) == values_of(answer, "set-cookie"@),
            _ => false,
        },
{
    reveal_strlit("set-cookie");
    reveal_strlit("location");
    assert("set-cookie"@ != "location"@) by {
        assert("set-cookie"@[0] != "location"@[0]);
    }
    let cookies = values_of(answer, "set-cookie"@);
    let empty = Seq::<(Seq<char>, Seq<u8>)>::empty();
    assert(empty + entries_for("set-cookie"@, cookies) =~= cookie_entries(answer));
    lemma_values_of_append(empty, "set-cookie"@, cookies, "set-cookie"@);
    assert(values_of(empty, "set-cookie"@) + cookies =~= cookies);
    let locs = values_of(answer, "location"@);
    lemma_values_of_append(cookie_entries(answer), "location"@, locs, "set-cookie"@);
    law_location_rewrite_keeps_other_headers(r, cookie_entries(answer) + entries_for("location"@, locs), "set-cookie"@);
}

} // verus!
