//! What the flow handlers share: redirects, location rewriting and the
//! debug rendering of values in error messages.
use vstd::prelude::*;
use crate::text::{concat2, concat3};
use crate::headers::{HeaderMap, HeaderValue, header_value_of_text, values_of, without_name, entries_for, lemma_known_header_names};
use crate::params::Params;
use crate::url_rewrite::{UrlRewriter, header_text_or_empty};
use crate::domain::{ActionResponse, LoginRequest, OAuth2Client};
use crate::errors::{FlowError, FlowResult};

verus! {

/// The headers of a redirect to `location`: the single `location` entry.
pub open spec fn redirect_headers(location: Seq<char>) -> Option<Seq<(Seq<char>, Seq<u8>)>> {
    match header_value_of_text(location) {
        Some(v) => Some(seq![("location"@, v)]),
        None => None,
    }
}

/// The 303 response that redirects the browser to `location`, or the
/// header-value error when `location` cannot be a header value.
pub open spec fn is_see_other(r: FlowResult<ActionResponse>, location: Seq<char>) -> bool {
    match redirect_headers(location) {
        Some(h) => r matches Ok(resp) && resp.status_code == 303 && resp.headers@ == h,
        None => r matches Err(e) && e is HeaderValueParse,
    }
}

/// Redirects the browser to `location` with 303 See Other.
pub fn see_other(location: &str) -> (r: FlowResult<ActionResponse>)
    ensures
        is_see_other(r, location@),
{
    match HeaderValue::from_str(location) {
        Some(v) => {
            let mut headers = HeaderMap::new();
            proof {
                lemma_known_header_names();
            }
            headers.append("location", v);
            Ok(ActionResponse { status_code: 303, headers })
        },
        None => Err(FlowError::HeaderValueParse),
    }
}

/// The rewritten forms of `values` that are valid header values, in order.
pub open spec fn rewritten_locations<R: UrlRewriter>(r: &R, values: Seq<Seq<u8>>) -> Seq<Seq<u8>>
    decreases values.len(),
{
    if values.len() == 0 {
        Seq::empty()
    } else {
        let rest = rewritten_locations(r, values.drop_last());
        match header_value_of_text(r.rewrite_spec(header_text_or_empty(values.last()))) {
            Some(v) => rest.push(v),
            None => rest,
        }
    }
}

/// `headers` with its `location` entries rewritten: the other entries stay
/// in order, and the rewritten locations that are valid header values
/// follow them.
pub open spec fn spec_rewrite_location_headers<R: UrlRewriter>(
    r: &R,
    headers: Seq<(Seq<char>, Seq<u8>)>,
) -> Seq<(Seq<char>, Seq<u8>)> {
    without_name(headers, "location"@) + entries_for(
        "location"@,
        rewritten_locations(r, values_of(headers, "location"@)),
    )
}

/// Rewrites the `location` headers of a Kratos answer for the browser;
/// a location whose rewritten form is not a valid header value is dropped.
pub fn rewrite_location_headers<R: UrlRewriter>(url_rewriter: &R, headers: &HeaderMap) -> (h: HeaderMap)
    ensures
        h@ == spec_rewrite_location_headers(url_rewriter, headers@),
{
    let locations = headers.get_all("location");
    let ghost vals = locations@.map_values(|v: HeaderValue| v@);
    let mut rewritten: Vec<HeaderValue> = Vec::new();
    let mut i: usize = 0;
    while i < locations.len()
        invariant
            i <= locations.len(),
            vals == locations@.map_values(|v: HeaderValue| v@),
            rewritten@.map_values(|v: HeaderValue| v@) == rewritten_locations(
                url_rewriter,
                vals.subrange(0, i as int),
            ),
        decreases locations.len() - i,
    {
        assert(vals.subrange(0, i + 1).drop_last() =~= vals.subrange(0, i as int));
        let ghost before = rewritten@;
        match url_rewriter.rewrite_header(&locations[i]) {
            Some(v) => {
                rewritten.push(v);
                assert(rewritten@.map_values(|v: HeaderValue| v@) =~= before.map_values(
                    |v: HeaderValue| v@,
                ).push(rewritten@.last()@));
            },
            None => {},
        }
        i = i + 1;
    }
    assert(vals.subrange(0, vals.len() as int) =~= vals);
    let mut header_map = HeaderMap::new();
    let mut k: usize = 0;
    while k < headers.len()
        invariant
            k <= headers@.len(),
            header_map@ == headers@.subrange(0, k as int),
        decreases headers@.len() - k,
    {
        let name = headers.name_at(k);
        let value = headers.value_at(k);
        header_map.append(name.as_str(), value);
        assert(header_map@ =~= headers@.subrange(0, k + 1));
        k = k + 1;
    }
    assert(headers@.subrange(0, headers@.len() as int) =~= headers@);
    proof {
        lemma_known_header_names();
    }
    header_map.remove("location");
    header_map.append_all("location", &rewritten);
    header_map
}

/// How `Debug` renders a string: quoted and escaped.
pub uninterp spec fn debug_text(s: Seq<char>) -> Seq<char>;

/// Calls `<str as Debug>::fmt` through `format!("{:?}", s)`; the text is
/// named `debug_text`.
#[verifier::external_body]
pub(crate) fn debug_str(s: &str) -> (r: String)
    ensures
        r@ == debug_text(s@),
{
    format!("{:?}", s)
}

/// How `Debug` renders the entries of a map, in order.
pub open spec fn debug_entries(p: Seq<(Seq<char>, Seq<char>)>) -> Seq<char>
    decreases p.len(),
{
    if p.len() == 0 {
        Seq::empty()
    } else {
        let entry = debug_text(p.last().0) + ": "@ + debug_text(p.last().1);
        if p.len() == 1 {
            entry
        } else {
            debug_entries(p.drop_last()) + ", "@ + entry
        }
    }
}

/// How `Debug` renders a map of strings with the entries `p`, in order.
pub open spec fn debug_params(p: Seq<(Seq<char>, Seq<char>)>) -> Seq<char> {
    "{"@ + debug_entries(p) + "}"@
}

/// The parameters rendered as `Debug` renders a map of strings.
pub fn params_debug(params: &Params) -> (s: String)
    ensures
        s@ == debug_params(params@),
{
    let pairs = params.pairs();
    let ghost p = params@;
    let mut out = String::new();
    let mut i: usize = 0;
    assert(p.subrange(0, 0) =~= Seq::<(Seq<char>, Seq<char>)>::empty());
    while i < pairs.len()
        invariant
            i <= pairs.len(),
            p == crate::form::pairs_view(pairs@),
            out@ == debug_entries(p.subrange(0, i as int)),
        decreases pairs.len() - i,
    {
        assert(p.subrange(0, i + 1).drop_last() =~= p.subrange(0, i as int));
        let k = debug_str(pairs[i].0.as_str());
        let v = debug_str(pairs[i].1.as_str());
        if i > 0 {
            out.append(", ");
        }
        out.append(k.as_str());
        out.append(": ");
        out.append(v.as_str());
        i = i + 1;
    }
    assert(p.subrange(0, pairs@.len() as int) =~= p);
    concat3("{", out.as_str(), "}")
}

/// How `Debug` renders an optional string.
pub open spec fn debug_option(o: Option<Seq<char>>) -> Seq<char> {
    match o {
        Some(s) => "Some("@ + debug_text(s) + ")"@,
        None => "None"@,
    }
}

fn option_debug(o: &Option<String>) -> (s: String)
    ensures
        s@ == debug_option(match o {
            Some(t) => Some(t@),
            None => None,
        }),
{
    match o {
        Some(t) => {
            let d = debug_str(t.as_str());
            concat3("Some(", d.as_str(), ")")
        },
        None => "None".to_owned(),
    }
}

pub open spec fn opt_view(o: Option<String>) -> Option<Seq<char>> {
    match o {
        Some(t) => Some(t@),
        None => None,
    }
}

/// How `Debug` renders an OAuth2 client.
pub open spec fn debug_client(c: OAuth2Client) -> Seq<char> {
    "OAuth2Client { client_id: "@ + debug_text(c.client_id@) + ", client_name: "@ + debug_option(
        opt_view(c.client_name),
    ) + ", logo_uri: "@ + debug_option(opt_view(c.logo_uri)) + ", policy_uri: "@ + debug_option(
        opt_view(c.policy_uri),
    ) + ", tos_uri: "@ + debug_option(opt_view(c.tos_uri)) + " }"@
}

/// How `Debug` renders the JSON value that the text `t` holds, or `None`
/// when `t` is not JSON.
pub uninterp spec fn json_value_debug(t: Seq<char>) -> Option<Seq<char>>;

/// Calls `serde_json::from_str` for a `serde_json::Value` and renders it
/// through `format!("{:?}", ..)`; the outcome is named `json_value_debug`.
#[verifier::external_body]
fn json_debug(t: &str) -> (r: Option<String>)
    ensures
        r is Some <==> json_value_debug(t@) is Some,
        r matches Some(s) ==> Some(s@) == json_value_debug(t@),
{
    match serde_json::from_str::<serde_json::Value>(t) {
        Ok(v) => Some(format!("{:?}", v)),
        Err(_) => None,
    }
}

/// How `Debug` renders the OIDC context held as the JSON text `t`: as the
/// JSON value it holds; text that is not JSON appears as it is.
pub open spec fn debug_json_text(t: Seq<char>) -> Seq<char> {
    match json_value_debug(t) {
        Some(d) => d,
        None => t,
    }
}

/// How `Debug` renders a login request; the OIDC context appears as `Debug`
/// renders the JSON value.
pub open spec fn debug_login_request(r: LoginRequest) -> Seq<char> {
    "LoginRequest { challenge: "@ + debug_text(r.challenge@) + ", subject: "@ + debug_option(
        opt_view(r.subject),
    ) + ", skip: "@ + (if r.skip {
        "true"@
    } else {
        "false"@
    }) + ", client: "@ + debug_client(r.client) + ", request_url: "@ + debug_text(r.request_url@)
        + ", oidc_context: "@ + match r.oidc_context {
        Some(c) => "Some("@ + debug_json_text(c@) + ")"@,
        None => "None"@,
    } + " }"@
}

fn client_debug(c: &OAuth2Client) -> (s: String)
    ensures
        s@ == debug_client(*c),
{
    let mut out = "OAuth2Client { client_id: ".to_owned();
    out.append(debug_str(c.client_id.as_str()).as_str());
    out.append(", client_name: ");
    out.append(option_debug(&c.client_name).as_str());
    out.append(", logo_uri: ");
    out.append(option_debug(&c.logo_uri).as_str());
    out.append(", policy_uri: ");
    out.append(option_debug(&c.policy_uri).as_str());
    out.append(", tos_uri: ");
    out.append(option_debug(&c.tos_uri).as_str());
    out.append(" }");
    out
}

/// The login request rendered for an error message.
pub fn login_request_debug(r: &LoginRequest) -> (s: String)
    ensures
        s@ == debug_login_request(*r),
{
    let mut out = "LoginRequest { challenge: ".to_owned();
    out.append(debug_str(r.challenge.as_str()).as_str());
    out.append(", subject: ");
    out.append(option_debug(&r.subject).as_str());
    out.append(", skip: ");
    if r.skip {
        out.append("true");
    } else {
        out.append("false");
    }
    out.append(", client: ");
    out.append(client_debug(&r.client).as_str());
    out.append(", request_url: ");
    out.append(debug_str(r.request_url.as_str()).as_str());
    out.append(", oidc_context: ");
    match &r.oidc_context {
        Some(c) => {
            out.append("Some(");
            match json_debug(c.as_str()) {
                Some(d) => out.append(d.as_str()),
                None => out.append(c.as_str()),
            }
            out.append(")");
        },
        None => out.append("None"),
    }
    out.append(" }");
    out
}

} // verus!
