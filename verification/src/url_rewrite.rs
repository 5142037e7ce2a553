//! Rewriting of Kratos URLs into the application's public URLs.
use vstd::prelude::*;
use vstd::string::*;
use crate::text::{contains, concat2, concat3, contains_seq, replace, replace_all, starts_with, starts_with_seq, strip_prefix, trim_end_char, trim_end_matches_char};
use crate::headers::{HeaderValue, header_text, header_value_of_text};

verus! {

/// Kratos browser paths and the application routes they map to, tried in
/// this order: the `/browser` forms first, then the bare ones.
pub open spec fn redirect_mappings() -> Seq<(Seq<char>, Seq<char>)> {
    seq![
        ("/self-service/login/browser"@, "/login"@),
        ("/self-service/registration/browser"@, "/registration"@),
        ("/self-service/recovery/browser"@, "/recovery"@),
        ("/self-service/verification/browser"@, "/verification"@),
        ("/self-service/settings/browser"@, "/settings"@),
        ("/self-service/login"@, "/login"@),
        ("/self-service/registration"@, "/registration"@),
        ("/self-service/recovery"@, "/recovery"@),
        ("/self-service/verification"@, "/verification"@),
        ("/self-service/settings"@, "/settings"@),
    ]
}

/// Kratos form-action paths and the application routes they map to.
pub open spec fn action_rewrites() -> Seq<(Seq<char>, Seq<char>)> {
    seq![
        ("/self-service/login"@, "/login"@),
        ("/self-service/registration"@, "/registration"@),
        ("/self-service/recovery"@, "/recovery"@),
        ("/self-service/verification"@, "/verification"@),
        ("/self-service/settings"@, "/settings"@),
    ]
}

/// The first mapping of `m` whose Kratos path occurs in `s` replaces every
/// occurrence of that path; `s` is unchanged when none occurs.
pub open spec fn apply_first_mapping(s: Seq<char>, m: Seq<(Seq<char>, Seq<char>)>) -> Seq<char>
    decreases m.len(),
{
    if m.len() == 0 {
        s
    } else if contains_seq(s, m[0].0) {
        replace_all(s, m[0].0, m[0].1)
    } else {
        apply_first_mapping(s, m.drop_first())
    }
}

/// `url` without its trailing slashes.
pub open spec fn base_of(url: Seq<char>) -> Seq<char> {
    trim_end_char(url, '/')
}

/// The location after the Kratos base is swapped for the public base: every
/// occurrence is swapped when the location begins with the Kratos base.
pub open spec fn swap_host(location: Seq<char>, kratos_url: Seq<char>, public_base: Seq<char>) -> Seq<char> {
    if starts_with_seq(location, base_of(kratos_url)) {
        replace_all(location, base_of(kratos_url), base_of(public_base))
    } else {
        location
    }
}

/// A Kratos redirect location rewritten for the browser.
pub open spec fn spec_rewrite_kratos_redirect(
    location: Seq<char>,
    kratos_url: Seq<char>,
    public_base: Seq<char>,
) -> Seq<char> {
    apply_first_mapping(swap_host(location, kratos_url, public_base), redirect_mappings())
}

/// The first action rewrite of `m` whose full Kratos URL begins `action`:
/// the public base, the local route, then the rest of `action`.
pub open spec fn first_action_rewrite(
    action: Seq<char>,
    kratos_base: Seq<char>,
    public: Seq<char>,
    m: Seq<(Seq<char>, Seq<char>)>,
) -> Option<Seq<char>>
    decreases m.len(),
{
    if m.len() == 0 {
        None
    } else if starts_with_seq(action, kratos_base + m[0].0) {
        Some(public + m[0].1 + action.subrange((kratos_base + m[0].0).len() as int, action.len() as int))
    } else {
        first_action_rewrite(action, kratos_base, public, m.drop_first())
    }
}

/// A Kratos form action rewritten so that the form posts to the application.
pub open spec fn spec_rewrite_action_url(action: Seq<char>, kratos_url: Seq<char>, public_base: Seq<char>) -> Seq<char> {
    match first_action_rewrite(action, base_of(kratos_url), base_of(public_base), action_rewrites()) {
        Some(r) => r,
        None => spec_rewrite_kratos_redirect(action, kratos_url, public_base),
    }
}

fn redirect_mapping_table() -> (t: Vec<(&'static str, &'static str)>)
    ensures
        t@.len() == redirect_mappings().len(),
        forall|i: int| 0 <= i < t@.len() ==> (#[trigger] t@[i].0@, t@[i].1@) == redirect_mappings()[i],
{
    let t = vec![
        ("/self-service/login/browser", "/login"),
        ("/self-service/registration/browser", "/registration"),
        ("/self-service/recovery/browser", "/recovery"),
        ("/self-service/verification/browser", "/verification"),
        ("/self-service/settings/browser", "/settings"),
        ("/self-service/login", "/login"),
        ("/self-service/registration", "/registration"),
        ("/self-service/recovery", "/recovery"),
        ("/self-service/verification", "/verification"),
        ("/self-service/settings", "/settings"),
    ];
    t
}

fn action_rewrite_table() -> (t: Vec<(&'static str, &'static str)>)
    ensures
        t@.len() == action_rewrites().len(),
        forall|i: int| 0 <= i < t@.len() ==> (#[trigger] t@[i].0@, t@[i].1@) == action_rewrites()[i],
{
    let t = vec![
        ("/self-service/login", "/login"),
        ("/self-service/registration", "/registration"),
        ("/self-service/recovery", "/recovery"),
        ("/self-service/verification", "/verification"),
        ("/self-service/settings", "/settings"),
    ];
    t
}

/// Rewrites a Kratos redirect `location` for the browser: when it begins
/// with the Kratos base URL (trailing slashes dropped), every occurrence of
/// that base becomes the public base; then the first Kratos self-service
/// path that occurs is replaced, everywhere, by its application route.
pub fn rewrite_kratos_redirect(location: &str, kratos_url: &str, public_base: &str) -> (res: String)
    ensures
        res@ == spec_rewrite_kratos_redirect(location@, kratos_url@, public_base@),
{
    let kratos_base = trim_end_matches_char(kratos_url, '/');
    let public = trim_end_matches_char(public_base, '/');
    let mut rewritten = if starts_with(location, kratos_base) {
        replace(location, kratos_base, public)
    } else {
        location.to_owned()
    };
    let ghost swapped = rewritten@;
    assert(swapped == swap_host(location@, kratos_url@, public_base@));
    let table = redirect_mapping_table();
    let mut k: usize = 0;
    assert(redirect_mappings().subrange(0, redirect_mappings().len() as int) =~= redirect_mappings());
    while k < table.len()
        invariant
            k <= table@.len(),
            table@.len() == redirect_mappings().len(),
            forall|i: int| 0 <= i < table@.len() ==> (#[trigger] table@[i].0@, table@[i].1@) == redirect_mappings()[i],
            rewritten@ == swapped,
            swapped == swap_host(location@, kratos_url@, public_base@),
            apply_first_mapping(swapped, redirect_mappings().subrange(k as int, redirect_mappings().len() as int))
                == apply_first_mapping(swapped, redirect_mappings()),
        decreases table@.len() - k,
    {
        let (kratos_path, local_path) = table[k];
        let ghost m = redirect_mappings().subrange(k as int, redirect_mappings().len() as int);
        assert(m[0] == redirect_mappings()[k as int]);
        assert(kratos_path@ == table@[k as int].0@);
        assert(local_path@ == table@[k as int].1@);
        if contains(rewritten.as_str(), kratos_path) {
            let res = replace(rewritten.as_str(), kratos_path, local_path);
            return res;
        }
        assert(m.drop_first() =~= redirect_mappings().subrange(k + 1, redirect_mappings().len() as int));
        k = k + 1;
    }
    assert(redirect_mappings().subrange(k as int, redirect_mappings().len() as int) =~= Seq::<(Seq<char>, Seq<char>)>::empty());
    rewritten
}

/// Rewrites a Kratos form action so that the form posts to the application:
/// an action that begins with the Kratos base followed by a self-service
/// path becomes the public base, the application route and the rest of the
/// action; any other action is rewritten as a redirect location.
pub fn rewrite_action_url(action: &str, kratos_url: &str, public_base: &str) -> (res: String)
    ensures
        res@ == spec_rewrite_action_url(action@, kratos_url@, public_base@),
{
    let kratos_base = trim_end_matches_char(kratos_url, '/');
    let public = trim_end_matches_char(public_base, '/');
    let table = action_rewrite_table();
    let mut k: usize = 0;
    assert(action_rewrites().subrange(0, action_rewrites().len() as int) =~= action_rewrites());
    while k < table.len()
        invariant
            k <= table@.len(),
            table@.len() == action_rewrites().len(),
            forall|i: int| 0 <= i < table@.len() ==> (#[trigger] table@[i].0@, table@[i].1@) == action_rewrites()[i],
            kratos_base@ == base_of(kratos_url@),
            public@ == base_of(public_base@),
            first_action_rewrite(action@, kratos_base@, public@, action_rewrites().subrange(k as int, action_rewrites().len() as int))
                == first_action_rewrite(action@, kratos_base@, public@, action_rewrites()),
        decreases table@.len() - k,
    {
        let (kratos_path, local_path) = table[k];
        let ghost m = action_rewrites().subrange(k as int, action_rewrites().len() as int);
        assert(m[0] == action_rewrites()[k as int]);
        assert(kratos_path@ == table@[k as int].0@);
        let prefix = concat2(kratos_base, kratos_path);
        match strip_prefix(action, prefix.as_str()) {
            Some(suffix) => {
                return concat3(public, local_path, suffix);
            },
            None => {},
        }
        assert(m.drop_first() =~= action_rewrites().subrange(k + 1, action_rewrites().len() as int));
        k = k + 1;
    }
    assert(action_rewrites().subrange(k as int, action_rewrites().len() as int) =~= Seq::<(Seq<char>, Seq<char>)>::empty());
    rewrite_kratos_redirect(action, kratos_url, public_base)
}


/// The text of a header value, or the empty text when it is not visible
/// ASCII (`to_str().unwrap_or_default()`).
pub open spec fn header_text_or_empty(v: Seq<u8>) -> Seq<char> {
    match header_text(v) {
        Some(t) => t,
        None => Seq::empty(),
    }
}

/// Rewrites URLs that Kratos hands out into URLs of the application.
pub trait UrlRewriter {
    /// The rewritten form of `url`.
    spec fn rewrite_spec(&self, url: Seq<char>) -> Seq<char>;

    /// Rewrites `url`.
    fn rewrite(&self, url: &str) -> (r: String)
        ensures
            r@ == self.rewrite_spec(url@),
    ;

    /// Rewrites the text of a header value (the empty text when it is not
    /// visible ASCII); the result is a header value when its bytes are valid.
    fn rewrite_header(&self, header: &HeaderValue) -> (r: Option<HeaderValue>)
        ensures
            r is Some <==> header_value_of_text(self.rewrite_spec(header_text_or_empty(header@))) is Some,
            r matches Some(v) ==> Some(v@) == header_value_of_text(
                self.rewrite_spec(header_text_or_empty(header@)),
            ),
    ;
}

/// The application sitting between the browser and Kratos: the public URL
/// of the application and the Kratos public URL.
pub struct AppInTheMiddle {
    app_url: String,
    kratos_url: String,
}

impl AppInTheMiddle {
    /// The rewriter for the application at `app_url` in front of Kratos at
    /// `kratos_url` (both URL serializations).
    pub fn new(app_url: String, kratos_url: String) -> (a: AppInTheMiddle)
        ensures
            a.app_url() == app_url@,
            a.kratos_url() == kratos_url@,
    {
        AppInTheMiddle { app_url, kratos_url }
    }

    pub closed spec fn app_url(&self) -> Seq<char> {
        self.app_url@
    }

    pub closed spec fn kratos_url(&self) -> Seq<char> {
        self.kratos_url@
    }
}

impl UrlRewriter for AppInTheMiddle {
    /// Form actions and redirects are rewritten as `rewrite_action_url` does.
    open spec fn rewrite_spec(&self, url: Seq<char>) -> Seq<char> {
        spec_rewrite_action_url(url, self.kratos_url(), self.app_url())
    }

    fn rewrite(&self, url: &str) -> (r: String) {
        rewrite_action_url(url, self.kratos_url.as_str(), self.app_url.as_str())
    }

    fn rewrite_header(&self, header: &HeaderValue) -> (r: Option<HeaderValue>) {
        let value = match header.to_str() {
            Some(t) => t,
            None => String::new(),
        };
        let rewritten = self.rewrite(value.as_str());
        HeaderValue::from_str(rewritten.as_str())
    }
}

} // verus!
