//! The identity service: requests to the Kratos public API and the meaning
//! of its answers.
use vstd::prelude::*;
use crate::text::{chars_of, concat2, concat3};
use crate::headers::{HeaderMap, values_of, entries_for, valid_header_name, lemma_known_header_names};
use crate::params::{Params, lookup};
use crate::form::{pairs_view, urlencode_or_empty, urlencode_pairs, encoded_or_empty, form_urlencoded, single_pair};
use crate::status::{is_success, spec_is_success, status_text, status_code_text, valid_status, UNAUTHORIZED};
use crate::domain::{FlowType, flow_type_segment};
use crate::errors::{IdentityError, IdentityResult};
use crate::requests::{Method, OutgoingRequest, RequestBody};

verus! {

/// A character allowed in a flow id: an ASCII hex digit or `-`.
pub open spec fn flow_id_char(c: char) -> bool {
    ('0' <= c && c <= '9') || ('a' <= c && c <= 'f') || ('A' <= c && c <= 'F') || c == '-'
}

/// A character allowed in an error id: an ASCII letter or digit, or `-`.
pub open spec fn error_id_char(c: char) -> bool {
    ('0' <= c && c <= '9') || ('a' <= c && c <= 'z') || ('A' <= c && c <= 'Z') || c == '-'
}

pub open spec fn valid_flow_id(id: Seq<char>) -> bool {
    forall|i: int| 0 <= i < id.len() ==> flow_id_char(#[trigger] id[i])
}

pub open spec fn valid_error_id(id: Seq<char>) -> bool {
    forall|i: int| 0 <= i < id.len() ==> error_id_char(#[trigger] id[i])
}

/// The headers forwarded from the browser to Kratos.
pub open spec fn common_forward_keys() -> Seq<Seq<char>> {
    seq![
        "cookie"@,
        "user-agent"@,
        "accept"@,
        "accept-language"@,
        "x-forwarded-for"@,
        "x-real-ip"@,
        "x-forwarded-proto"@,
        "x-forwarded-host"@,
    ]
}

/// For each key in order, every value of `incoming` under that key.
pub open spec fn forwarded(incoming: Seq<(Seq<char>, Seq<u8>)>, keys: Seq<Seq<char>>) -> Seq<(Seq<char>, Seq<u8>)>
    decreases keys.len(),
{
    if keys.len() == 0 {
        Seq::empty()
    } else {
        forwarded(incoming, keys.drop_last()) + entries_for(keys.last(), values_of(incoming, keys.last()))
    }
}

/// The Kratos URL of a self-service flow: the public URL, then
/// `/self-service/<flow>`, then `/<target>` when there is a target, then
/// `?` and the encoded parameters when there are parameters.
pub open spec fn spec_target_url(
    public_url: Seq<char>,
    flow_type: FlowType,
    target_path: Option<Seq<char>>,
    params: Seq<(Seq<char>, Seq<char>)>,
) -> Seq<char> {
    let base = public_url + "/self-service/"@ + flow_type_segment(flow_type);
    let path = match target_path {
        Some(p) => "/"@ + p,
        None => Seq::empty(),
    };
    if params.len() > 0 {
        base + path + "?"@ + encoded_or_empty(params)
    } else {
        base + path
    }
}

/// The message of a failed status: `prefix` then the status text.
pub open spec fn status_message(prefix: Seq<char>, status: u16) -> Seq<char> {
    prefix + status_code_text(status)
}

/// The Kratos service: its public URL.
pub struct KratosService {
    public_url: String,
}

impl View for KratosService {
    type V = Seq<char>;

    closed spec fn view(&self) -> Seq<char> {
        self.public_url@
    }
}

fn forward_key_table() -> (t: Vec<&'static str>)
    ensures
        t@.map_values(|k: &str| k@) == common_forward_keys(),
        forall|k: int| 0 <= k < t@.len() ==> valid_header_name(#[trigger] t@[k]@),
{
    proof {
        lemma_known_header_names();
    }
    let t = vec![
        "cookie",
        "user-agent",
        "accept",
        "accept-language",
        "x-forwarded-for",
        "x-real-ip",
        "x-forwarded-proto",
        "x-forwarded-host",
    ];
    assert(t@.map_values(|k: &str| k@) =~= common_forward_keys());
    t
}

/// Every value of `incoming` under each of `keys`, key by key.
pub fn forward_headers(incoming: &HeaderMap, keys: &Vec<&str>) -> (h: HeaderMap)
    requires
        forall|k: int| 0 <= k < keys@.len() ==> valid_header_name(#[trigger] keys@[k]@),
    ensures
        h@ == forwarded(incoming@, keys@.map_values(|k: &str| k@)),
{
    let ghost ks = keys@.map_values(|k: &str| k@);
    let mut h = HeaderMap::new();
    let mut i: usize = 0;
    while i < keys.len()
        invariant
            i <= keys.len(),
            ks == keys@.map_values(|k: &str| k@),
            forall|k: int| 0 <= k < keys@.len() ==> valid_header_name(#[trigger] keys@[k]@),
            h@ == forwarded(incoming@, ks.subrange(0, i as int)),
        decreases keys.len() - i,
    {
        let key = keys[i];
        let values = incoming.get_all(key);
        h.append_all(key, &values);
        assert(ks.subrange(0, i + 1).drop_last() =~= ks.subrange(0, i as int));
        assert(ks.subrange(0, i + 1).last() == key@);
        i = i + 1;
    }
    assert(ks.subrange(0, keys@.len() as int) =~= ks);
    h
}

/// Whether every character of `id` satisfies `flow_id_char` (when `hex`)
/// or `error_id_char`.
pub(crate) fn all_id_chars(id: &str, hex: bool) -> (b: bool)
    ensures
        hex ==> (b == valid_flow_id(id@)),
        !hex ==> (b == valid_error_id(id@)),
{
    let v = chars_of(id);
    let mut i: usize = 0;
    while i < v.len()
        invariant
            v@ == id@,
            i <= v.len(),
            hex ==> forall|k: int| 0 <= k < i ==> flow_id_char(#[trigger] v@[k]),
            !hex ==> forall|k: int| 0 <= k < i ==> error_id_char(#[trigger] v@[k]),
        decreases v.len() - i,
    {
        let c = v[i];
        let ok = if hex {
            ('0' <= c && c <= '9') || ('a' <= c && c <= 'f') || ('A' <= c && c <= 'F') || c == '-'
        } else {
            ('0' <= c && c <= '9') || ('a' <= c && c <= 'z') || ('A' <= c && c <= 'Z') || c == '-'
        };
        if !ok {
            return false;
        }
        i = i + 1;
    }
    true
}

impl KratosService {
    /// The service for the Kratos public API at `public_url`.
    pub fn new(public_url: String) -> (s: KratosService)
        ensures
            s@ == public_url@,
    {
        KratosService { public_url }
    }

    /// The Kratos URL of a self-service flow of type `flow_type`.
    pub fn target_to_identity(&self, flow_type: &FlowType, target_path: Option<&str>, params: &Params) -> (url: String)
        ensures
            url@ == spec_target_url(self@, *flow_type, match target_path {
                Some(p) => Some(p@),
                None => None,
            }, params@),
    {
        let mut base = concat3(self.public_url.as_str(), "/self-service/", flow_type.segment());
        match target_path {
            Some(p) => {
                base.append("/");
                base.append(p);
            },
            None => {},
        }
        if !params.is_empty() {
            let pairs = params.pairs();
            let encoded = urlencode_or_empty(&pairs);
            base.append("?");
            base.append(encoded.as_str());
        }
        base
    }

    /// Accepts a flow id made of ASCII hex digits and `-` only.
    pub fn validate_flow_id(&self, flow_id: &str) -> (r: IdentityResult<()>)
        ensures
            r is Ok <==> valid_flow_id(flow_id@),
            r matches Err(e) ==> e matches IdentityError::IncorrectFlowIdFormat(s) && s@ == flow_id@,
    {
        if !all_id_chars(flow_id, true) {
            return Err(IdentityError::IncorrectFlowIdFormat(flow_id.to_owned()));
        }
        Ok(())
    }

    /// Accepts an error id made of ASCII letters, digits and `-` only.
    pub fn validate_error_id(&self, error_id: &str) -> (r: IdentityResult<()>)
        ensures
            r is Ok <==> valid_error_id(error_id@),
            r matches Err(e) ==> e matches IdentityError::IncorrectErrorIdFormat(s) && s@ == error_id@,
    {
        if !all_id_chars(error_id, false) {
            return Err(IdentityError::IncorrectErrorIdFormat(error_id.to_owned()));
        }
        Ok(())
    }

    /// The browser headers forwarded to Kratos: cookies, user agent, accept
    /// headers and proxy headers, then the extra keys; every value of each.
    pub fn copy_forward_headers(&self, incoming: &HeaderMap, extra_keys: &Vec<&str>) -> (h: HeaderMap)
        requires
            forall|k: int| 0 <= k < extra_keys@.len() ==> valid_header_name(#[trigger] extra_keys@[k]@),
        ensures
            h@ == forwarded(incoming@, common_forward_keys() + extra_keys@.map_values(|k: &str| k@)),
    {
        let mut keys = forward_key_table();
        let ghost common = keys@;
        let mut i: usize = 0;
        while i < extra_keys.len()
            invariant
                i <= extra_keys.len(),
                keys@ == common + extra_keys@.subrange(0, i as int),
                forall|k: int| 0 <= k < common.len() ==> valid_header_name(#[trigger] common[k]@),
                forall|k: int| 0 <= k < extra_keys@.len() ==> valid_header_name(#[trigger] extra_keys@[k]@),
            decreases extra_keys.len() - i,
        {
            keys.push(extra_keys[i]);
            assert(keys@ =~= common + extra_keys@.subrange(0, i + 1));
            i = i + 1;
        }
        assert(extra_keys@.subrange(0, extra_keys@.len() as int) =~= extra_keys@);
        assert(keys@.map_values(|k: &str| k@) =~= common.map_values(|k: &str| k@) + extra_keys@.map_values(
            |k: &str| k@,
        ));
        assert forall|k: int| 0 <= k < keys@.len() implies valid_header_name(#[trigger] keys@[k]@) by {
            if k >= common.len() {
                assert(keys@[k] == extra_keys@[k - common.len()]);
            }
        }
        forward_headers(incoming, &keys)
    }
}


/// The URL that reads a flow: `/flows?id=<flow>` when the parameters name
/// a flow, `/browser` (starting a new flow) otherwise.
pub open spec fn spec_fetch_flow_url(public_url: Seq<char>, flow_type: FlowType, params: Seq<(Seq<char>, Seq<char>)>) -> Seq<char> {
    match lookup(params, "flow"@) {
        Some(id) => spec_target_url(public_url, flow_type, Some("flows"@), seq![("id"@, id)]),
        None => spec_target_url(public_url, flow_type, Some("browser"@), Seq::empty()),
    }
}

/// A GET request with the given URL, the browser's forwarded headers and
/// no body.
pub open spec fn is_forwarded_get(req: OutgoingRequest, url: Seq<char>, incoming: Seq<(Seq<char>, Seq<u8>)>) -> bool {
    &&& req.method == Method::Get
    &&& req.url@ == url
    &&& req.headers@ == forwarded(incoming, common_forward_keys())
    &&& req.body is Empty
}

/// The URL that starts a browser logout flow, with the `return_to` target
/// form-encoded when there is one (encoding string pairs always succeeds,
/// so the `return_to=<target>` fallback is never taken).
pub open spec fn spec_logout_url(public_url: Seq<char>, return_to: Option<Seq<char>>) -> Seq<char> {
    let base = public_url + "/self-service/logout/browser"@;
    match return_to {
        Some(rt) => base + "?"@ + match form_urlencoded(seq![("return_to"@, rt)]) {
            Some(e) => e,
            None => "return_to="@ + rt,
        },
        None => base,
    }
}

impl KratosService {
    fn no_extra_keys() -> (v: Vec<&'static str>)
        ensures
            v@.len() == 0,
    {
        Vec::new()
    }

    /// The request that reads the flow of type `flow_type`: the flow named
    /// by the `flow` parameter, whose id must be valid, or a new browser
    /// flow when there is none.
    pub fn fetch_flow(&self, flow_type: &FlowType, headers: &HeaderMap, params: &Params) -> (r: IdentityResult<OutgoingRequest>)
        ensures
            match lookup(params@, "flow"@) {
                Some(id) if !valid_flow_id(id) => r matches Err(e) && e matches IdentityError::IncorrectFlowIdFormat(s) && s@ == id,
                _ => r matches Ok(req) && is_forwarded_get(req, spec_fetch_flow_url(self@, *flow_type, params@), headers@),
            },
    {
        let mut req_params = Params::new();
        let target_path = match params.get("flow") {
            Some(flow_id) => {
                self.validate_flow_id(flow_id.as_str())?;
                req_params.insert("id".to_owned(), flow_id);
                "flows"
            },
            None => "browser",
        };
        let url = self.target_to_identity(flow_type, Some(target_path), &req_params);
        let extra = KratosService::no_extra_keys();
        let fwd = self.copy_forward_headers(headers, &extra);
        assert(common_forward_keys() + extra@.map_values(|k: &str| k@) =~= common_forward_keys());
        proof {
            if lookup(params@, "flow"@) is Some {
                assert(req_params@ =~= seq![("id"@, lookup(params@, "flow"@).unwrap())]);
            } else {
                assert(req_params@ =~= Seq::<(Seq<char>, Seq<char>)>::empty());
            }
        }
        Ok(OutgoingRequest { method: Method::Get, url, headers: fwd, body: RequestBody::Empty })
    }

    /// The request that submits a browser form to the flow of type
    /// `flow_type`: a POST of the body as it came, with the query
    /// parameters, the forwarded headers and the content type.
    pub fn proxy_submit_flow(&self, flow_type: &FlowType, headers: &HeaderMap, params: &Params, body: Vec<u8>) -> (req: OutgoingRequest)
        ensures
            req.method == Method::Post,
            req.url@ == spec_target_url(self@, *flow_type, None, params@),
            req.headers@ == forwarded(headers@, common_forward_keys() + seq!["content-type"@]),
            req.body matches RequestBody::Raw(b) && b@ == body@,
    {
        let url = self.target_to_identity(flow_type, None, params);
        let extra = vec!["content-type"];
        proof {
            lemma_known_header_names();
            assert(extra@[0]@ == "content-type"@);
        }
        let fwd = self.copy_forward_headers(headers, &extra);
        assert(extra@.map_values(|k: &str| k@) =~= seq!["content-type"@]);
        OutgoingRequest { method: Method::Post, url, headers: fwd, body: RequestBody::Raw(body) }
    }

    /// The request that reads the browser's session: `/sessions/whoami`.
    pub fn check_session(&self, headers: &HeaderMap) -> (req: OutgoingRequest)
        ensures
            is_forwarded_get(req, self@ + "/sessions/whoami"@, headers@),
    {
        let url = concat2(self.public_url.as_str(), "/sessions/whoami");
        let extra = KratosService::no_extra_keys();
        let fwd = self.copy_forward_headers(headers, &extra);
        assert(common_forward_keys() + extra@.map_values(|k: &str| k@) =~= common_forward_keys());
        OutgoingRequest { method: Method::Get, url, headers: fwd, body: RequestBody::Empty }
    }

    /// What the session check's status means: 401 is no session, another
    /// status outside 2xx is a failure, a 2xx status carries the session.
    pub fn check_session_outcome(status: u16) -> (r: IdentityResult<()>)
        requires
            valid_status(status),
        ensures
            status == 401 ==> (r matches Err(e) && e matches IdentityError::Unauthorized(m)
                && m@ == "No active session found"@),
            status != 401 && !spec_is_success(status) ==> (r matches Err(e) && e matches IdentityError::CheckSession(m)
                && m@ == status_message("Failed checking session: status_code=("@, status) + ")"@),
            status != 401 && spec_is_success(status) ==> r is Ok,
    {
        if status == UNAUTHORIZED {
            return Err(IdentityError::Unauthorized("No active session found".to_owned()));
        }
        if !is_success(status) {
            let text = status_text(status);
            let msg = concat3("Failed checking session: status_code=(", text.as_str(), ")");
            return Err(IdentityError::CheckSession(msg));
        }
        Ok(())
    }

    /// The request that reads a self-service error: the id must be valid;
    /// no browser header is forwarded.
    pub fn get_error(&self, id: &str) -> (r: IdentityResult<OutgoingRequest>)
        ensures
            !valid_error_id(id@) ==> (r matches Err(e) && e matches IdentityError::IncorrectErrorIdFormat(s) && s@ == id@),
            valid_error_id(id@) ==> (r matches Ok(req) && req.method == Method::Get && req.url@ == self@
                + "/self-service/errors?id="@ + id@ && req.headers@.len() == 0 && req.body is Empty),
    {
        self.validate_error_id(id)?;
        let url = concat3(self.public_url.as_str(), "/self-service/errors?id=", id);
        Ok(OutgoingRequest { method: Method::Get, url, headers: HeaderMap::new(), body: RequestBody::Empty })
    }

    /// What the status of the error read means.
    pub fn get_error_outcome(status: u16) -> (r: IdentityResult<()>)
        requires
            valid_status(status),
        ensures
            spec_is_success(status) ==> r is Ok,
            !spec_is_success(status) ==> (r matches Err(e) && e matches IdentityError::RetrieveError(m)
                && m@ == status_message("Failed to fetch error flow: "@, status)),
    {
        if !is_success(status) {
            let text = status_text(status);
            return Err(IdentityError::RetrieveError(concat2("Failed to fetch error flow: ", text.as_str())));
        }
        Ok(())
    }

    /// The request that starts a browser logout flow, returning to
    /// `return_to` afterwards when given.
    pub fn create_logout_flow(&self, headers: &HeaderMap, return_to: Option<&str>) -> (req: OutgoingRequest)
        ensures
            is_forwarded_get(req, spec_logout_url(self@, match return_to {
                Some(rt) => Some(rt@),
                None => None,
            }), headers@),
    {
        let mut url = concat2(self.public_url.as_str(), "/self-service/logout/browser");
        match return_to {
            Some(rt) => {
                let pair = single_pair("return_to", rt);
                let encoded = match urlencode_pairs(&pair) {
                    Some(e) => e,
                    None => concat2("return_to=", rt),
                };
                url.append("?");
                url.append(encoded.as_str());
            },
            None => {},
        }
        let extra = KratosService::no_extra_keys();
        let fwd = self.copy_forward_headers(headers, &extra);
        assert(common_forward_keys() + extra@.map_values(|k: &str| k@) =~= common_forward_keys());
        OutgoingRequest { method: Method::Get, url, headers: fwd, body: RequestBody::Empty }
    }

    /// What the status of the logout-flow creation means: 401 is no
    /// session, another status outside 2xx is a failure.
    pub fn create_logout_flow_outcome(status: u16) -> (r: IdentityResult<()>)
        requires
            valid_status(status),
        ensures
            status == 401 ==> (r matches Err(e) && e matches IdentityError::Unauthorized(m)
                && m@ == "No active session \u{2014} cannot create logout flow"@),
            status != 401 && !spec_is_success(status) ==> (r matches Err(e) && e matches IdentityError::RetrieveLogout(m)
                && m@ == status_message("Failed to create logout flow: "@, status)),
            status != 401 && spec_is_success(status) ==> r is Ok,
    {
        if status == UNAUTHORIZED {
            return Err(IdentityError::Unauthorized("No active session \u{2014} cannot create logout flow".to_owned()));
        }
        if !is_success(status) {
            let text = status_text(status);
            return Err(IdentityError::RetrieveLogout(concat2("Failed to create logout flow: ", text.as_str())));
        }
        Ok(())
    }
}

} // verus!
