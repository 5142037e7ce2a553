//! The error page: a Kratos self-service error, an OAuth2 error, or an
//! unknown one.
use vstd::prelude::*;
use vstd::string::*;
use crate::text::{chars_of, concat2, replace, replace_all};
use crate::headers::HeaderMap;
use crate::params::{Params, lookup};
use crate::domain::{ErrorUiNode, KratosErrorContainer, UiNodeResponse};
use crate::errors::{FlowResult, IdentityResult};
use crate::kratos::KratosService;

verus! {

/// `char::is_whitespace`: the Unicode `White_Space` characters.
pub open spec fn is_white_space(c: char) -> bool {
    ('\t' <= c && c <= '\r') || c == ' ' || c == '\u{85}' || c == '\u{a0}' || c == '\u{1680}' || ('\u{2000}'
        <= c && c <= '\u{200a}') || c == '\u{2028}' || c == '\u{2029}' || c == '\u{202f}' || c == '\u{205f}'
        || c == '\u{3000}'
}

/// The words of `s` (its maximal runs of non-white-space characters), and
/// whether the last character is inside a word.
pub open spec fn words_scan(s: Seq<char>) -> (Seq<Seq<char>>, bool)
    decreases s.len(),
{
    if s.len() == 0 {
        (Seq::empty(), false)
    } else {
        let (w, open) = words_scan(s.drop_last());
        let c = s.last();
        if is_white_space(c) {
            (w, false)
        } else if open && w.len() > 0 {
            (w.update(w.len() - 1, w.last().push(c)), true)
        } else {
            (w.push(seq![c]), true)
        }
    }
}

/// The words of `s`, as `str::split_whitespace` gives them.
pub open spec fn words_of(s: Seq<char>) -> Seq<Seq<char>> {
    words_scan(s).0
}

/// The upper-case form of a character (`char::to_uppercase`).
pub uninterp spec fn char_upper(c: char) -> Seq<char>;

/// Calls `char::to_uppercase` and collects it into a string; the text is
/// named `char_upper`.
#[verifier::external_body]
fn upper_text(c: char) -> (s: String)
    ensures
        s@ == char_upper(c),
{
    c.to_uppercase().to_string()
}

/// A word with its first character in upper case.
pub open spec fn capitalized(w: Seq<char>) -> Seq<char> {
    if w.len() == 0 {
        Seq::empty()
    } else {
        char_upper(w[0]) + w.drop_first()
    }
}

/// The capitalized words joined by single spaces.
pub open spec fn join_capitalized(ws: Seq<Seq<char>>) -> Seq<char>
    decreases ws.len(),
{
    if ws.len() == 0 {
        Seq::empty()
    } else if ws.len() == 1 {
        capitalized(ws[0])
    } else {
        join_capitalized(ws.drop_last()) + " "@ + capitalized(ws.last())
    }
}

/// A readable title for an OAuth2 error code: underscores become spaces,
/// and each word starts with a capital (`access_denied` gives
/// `Access Denied`).
pub open spec fn spec_error_title(code: Seq<char>) -> Seq<char> {
    join_capitalized(words_of(replace_all(code, "_"@, " "@)))
}

fn is_white_space_exec(c: char) -> (b: bool)
    ensures
        b == is_white_space(c),
{
    ('\t' <= c && c <= '\r') || c == ' ' || c == '\u{85}' || c == '\u{a0}' || c == '\u{1680}' || ('\u{2000}'
        <= c && c <= '\u{200a}') || c == '\u{2028}' || c == '\u{2029}' || c == '\u{202f}' || c == '\u{205f}'
        || c == '\u{3000}'
}

/// The title of an OAuth2 error code.
pub fn error_title(code: &str) -> (t: String)
    ensures
        t@ == spec_error_title(code@),
{
    let text = replace(code, "_", " ");
    let v = chars_of(text.as_str());
    let ghost s = v@;
    let mut ranges: Vec<(usize, usize)> = Vec::new();
    let mut open = false;
    let mut i: usize = 0;
    assert(s.subrange(0, 0) =~= Seq::<char>::empty());
    while i < v.len()
        invariant
            s == v@,
            i <= v.len(),
            ranges@.len() == words_scan(s.subrange(0, i as int)).0.len(),
            open == words_scan(s.subrange(0, i as int)).1,
            open ==> ranges@.len() > 0 && ranges@.last().1 == i,
            forall|k: int| 0 <= k < ranges@.len() ==> {
                let r = #[trigger] ranges@[k];
                &&& r.0 < r.1 <= i
                &&& s.subrange(r.0 as int, r.1 as int) == words_scan(s.subrange(0, i as int)).0[k]
            },
        decreases v.len() - i,
    {
        let ghost prev = words_scan(s.subrange(0, i as int));
        assert(s.subrange(0, i + 1).drop_last() =~= s.subrange(0, i as int));
        assert(s.subrange(0, i + 1).last() == s[i as int]);
        let c = v[i];
        let ghost next = words_scan(s.subrange(0, i + 1));
        assert(next == (if is_white_space(c) {
            (prev.0, false)
        } else if prev.1 && prev.0.len() > 0 {
            (prev.0.update(prev.0.len() - 1, prev.0.last().push(c)), true)
        } else {
            (prev.0.push(seq![c]), true)
        }));
        if is_white_space_exec(c) {
            open = false;
        } else if open {
            let last = ranges.len() - 1;
            let (a, _) = ranges[last];
            ranges.set(last, (a, i + 1));
            assert(s.subrange(a as int, i + 1) =~= s.subrange(a as int, i as int).push(c));
        } else {
            ranges.push((i, i + 1));
            open = true;
            assert(s.subrange(i as int, i + 1) =~= seq![c]);
        }
        i = i + 1;
    }
    assert(s.subrange(0, s.len() as int) =~= s);
    let ghost words = words_of(s);
    let mut out = String::new();
    let mut k: usize = 0;
    while k < ranges.len()
        invariant
            s == v@,
            s == text@,
            words == words_of(s),
            ranges@.len() == words.len(),
            k <= ranges@.len(),
            forall|j: int| 0 <= j < ranges@.len() ==> {
                let r = #[trigger] ranges@[j];
                &&& r.0 < r.1 <= s.len()
                &&& s.subrange(r.0 as int, r.1 as int) == words[j]
            },
            out@ == join_capitalized(words.subrange(0, k as int)),
        decreases ranges@.len() - k,
    {
        let (a, b) = ranges[k];
        let ghost w = words[k as int];
        assert(w == s.subrange(a as int, b as int));
        assert(w[0] == s[a as int]);
        assert(w.drop_first() =~= s.subrange(a + 1, b as int));
        assert(words.subrange(0, k + 1).drop_last() =~= words.subrange(0, k as int));
        if k > 0 {
            out.append(" ");
        }
        let up = upper_text(v[a]);
        out.append(up.as_str());
        out.append(text.as_str().substring_char(a + 1, b));
        k = k + 1;
    }
    assert(words.subrange(0, words.len() as int) =~= words);
    out
}

/// The next step of the error page.
pub enum ErrorStep {
    /// Read the Kratos self-service error with this id.
    GetError { id: String },
    /// The handler's answer.
    Done(FlowResult<UiNodeResponse<ErrorUiNode>>),
}

/// An error page with this title, description and status, without headers.
pub open spec fn is_error_page(r: FlowResult<UiNodeResponse<ErrorUiNode>>, title: Seq<char>, description: Seq<char>, status: u16) -> bool {
    match r {
        Ok(resp) => resp.status_code == status && resp.headers@.len() == 0 && match resp.ui_node {
            Some(n) => n.title@ == title && n.description@ == description,
            None => false,
        },
        Err(_) => false,
    }
}

fn error_page(title: String, description: String, status: u16) -> (r: FlowResult<UiNodeResponse<ErrorUiNode>>)
    ensures
        is_error_page(r, title@, description@, status),
{
    Ok(UiNodeResponse { ui_node: Some(ErrorUiNode { title, description }), status_code: status, headers: HeaderMap::new() })
}

/// The error handler: the identity service.
pub struct ErrorFlowHandler {
    pub identity_service: KratosService,
}

impl ErrorFlowHandler {
    pub fn new(identity_service: KratosService) -> (h: Self)
        ensures
            h.identity_service == identity_service,
    {
        ErrorFlowHandler { identity_service }
    }

    /// The error page starts from the parameters: a Kratos error `id` is
    /// read first; otherwise an OAuth2 `error` code is shown with its
    /// `error_description` (or a sentence naming the code) under a title
    /// made from the code, with status 200; otherwise an unknown error is
    /// shown with status 500.
    pub fn fetch_ui_start(&self, params: &Params) -> (step: ErrorStep)
        ensures
            lookup(params@, "id"@) matches Some(id) ==> (step matches ErrorStep::GetError { id: i } && i@ == id),
            lookup(params@, "id"@) is None && lookup(params@, "error"@) is Some ==> ({
                let code = lookup(params@, "error"@).unwrap();
                let description = match lookup(params@, "error_description"@) {
                    Some(d) => d,
                    None => "An OAuth2 error occurred: "@ + code,
                };
                step matches ErrorStep::Done(r) && is_error_page(r, spec_error_title(code), description, 200)
            }),
            lookup(params@, "id"@) is None && lookup(params@, "error"@) is None ==> (step matches ErrorStep::Done(r)
                && is_error_page(r, "An Unknown Error Occurred"@,
                "Something went wrong. Please return to the login page and try again."@, 500)),
    {
        if let Some(id) = params.get("id") {
            return ErrorStep::GetError { id };
        }
        if let Some(code) = params.get("error") {
            let description = match params.get("error_description") {
                Some(d) => d,
                None => concat2("An OAuth2 error occurred: ", code.as_str()),
            };
            let title = error_title(code.as_str());
            return ErrorStep::Done(error_page(title, description, 200));
        }
        ErrorStep::Done(
            error_page(
                "An Unknown Error Occurred".to_owned(),
                "Something went wrong. Please return to the login page and try again.".to_owned(),
                500,
            ),
        )
    }

    /// The Kratos error: its status as title (or a generic one) and its
    /// reason, else its message, else a generic text as description, with
    /// status 200; when it cannot be read, a page saying so, with status 500.
    pub fn fetch_ui_on_error(&self, r: IdentityResult<KratosErrorContainer>) -> (step: ErrorStep)
        ensures
            r matches Ok(c) ==> (step matches ErrorStep::Done(res) && is_error_page(
                res,
                match c.error.status {
                    Some(s) => s@,
                    None => "An Error Occurred"@,
                },
                match c.error.reason {
                    Some(s) => s@,
                    None => match c.error.message {
                        Some(m) => m@,
                        None => "An unexpected error occurred. Please try again."@,
                    },
                },
                200,
            )),
            r is Err ==> (step matches ErrorStep::Done(res) && is_error_page(res, "Error Details Unavailable"@,
                "The error details could not be retrieved. Please return to the login page and try again."@, 500)),
    {
        match r {
            Ok(container) => {
                let detail = container.error;
                let title = match detail.status {
                    Some(s) => s,
                    None => "An Error Occurred".to_owned(),
                };
                let description = match detail.reason {
                    Some(s) => s,
                    None => match detail.message {
                        Some(m) => m,
                        None => "An unexpected error occurred. Please try again.".to_owned(),
                    },
                };
                ErrorStep::Done(error_page(title, description, 200))
            },
            Err(_) => ErrorStep::Done(
                error_page(
                    "Error Details Unavailable".to_owned(),
                    "The error details could not be retrieved. Please return to the login page and try again.".to_owned(),
                    500,
                ),
            ),
        }
    }
}

} // verus!
