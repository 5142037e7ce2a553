//! The direct routes: each self-service route talks to Kratos itself
//! (through `KratosClient`), and the OAuth2 routes to Hydra (through
//! `HydraClient`), answering the browser with redirects and pages.
use vstd::prelude::*;
use crate::text::{concat2, concat3, same_text};
use crate::headers::{HeaderMap, HeaderValue, values_of, entries_for, header_value_of_text, valid_header_name, lemma_known_header_names};
use crate::params::{Params, lookup};
use crate::form::{urlencode_or_empty, encoded_or_empty, pairs_view};
use crate::status::{is_success, is_redirection, spec_is_success, spec_is_redirection, status_text, status_code_text, valid_status, UNAUTHORIZED};
use crate::domain::{
    FlowType, flow_type_segment, LoginUiNode, RegistrationUiNode, RecoveryUiNode, VerificationUiNode, SettingsUiNode,
    ConsentUiNode,
};
use crate::errors::{AppError, AppResult};
use crate::requests::{Method, OutgoingRequest, RequestBody};
use crate::kratos::{valid_flow_id, valid_error_id, all_id_chars, KratosService};
use crate::url_rewrite::{rewrite_kratos_redirect, rewrite_action_url, spec_rewrite_kratos_redirect, spec_rewrite_action_url, header_text_or_empty};
use crate::flows::variants::FormFlow;

verus! {

/// A Kratos self-service flow of one of the five form types.
pub enum KratosFlow {
    Login(LoginUiNode),
    Registration(RegistrationUiNode),
    Recovery(RecoveryUiNode),
    Verification(VerificationUiNode),
    Settings(SettingsUiNode),
}

/// The flow type of each route name.
pub open spec fn route_flow_type(name: Seq<char>) -> Option<FlowType> {
    if name == "login"@ {
        Some(FlowType::Login)
    } else if name == "registration"@ {
        Some(FlowType::Registration)
    } else if name == "recovery"@ {
        Some(FlowType::Recovery)
    } else if name == "verification"@ {
        Some(FlowType::Verification)
    } else if name == "settings"@ {
        Some(FlowType::Settings)
    } else {
        None
    }
}

/// The flow type to read a body as, for the route named `name`.
pub fn flow_type_of_route(name: &str) -> (t: Option<FlowType>)
    ensures
        t == route_flow_type(name@),
{
    if same_text(name, "login") {
        Some(FlowType::Login)
    } else if same_text(name, "registration") {
        Some(FlowType::Registration)
    } else if same_text(name, "recovery") {
        Some(FlowType::Recovery)
    } else if same_text(name, "verification") {
        Some(FlowType::Verification)
    } else if same_text(name, "settings") {
        Some(FlowType::Settings)
    } else {
        None
    }
}

pub open spec fn kratos_flow_type(f: KratosFlow) -> FlowType {
    match f {
        KratosFlow::Login(_) => FlowType::Login,
        KratosFlow::Registration(_) => FlowType::Registration,
        KratosFlow::Recovery(_) => FlowType::Recovery,
        KratosFlow::Verification(_) => FlowType::Verification,
        KratosFlow::Settings(_) => FlowType::Settings,
    }
}

pub open spec fn kratos_flow_action(f: KratosFlow) -> Seq<char> {
    match f {
        KratosFlow::Login(n) => n.spec_action(),
        KratosFlow::Registration(n) => n.spec_action(),
        KratosFlow::Recovery(n) => n.spec_action(),
        KratosFlow::Verification(n) => n.spec_action(),
        KratosFlow::Settings(n) => n.spec_action(),
    }
}

/// `g` is the flow `f` with at most its form action changed.
pub open spec fn kratos_flow_differs_only_in_action(f: KratosFlow, g: KratosFlow) -> bool {
    match (f, g) {
        (KratosFlow::Login(a), KratosFlow::Login(b)) => a.differs_only_in_action(&b),
        (KratosFlow::Registration(a), KratosFlow::Registration(b)) => a.differs_only_in_action(&b),
        (KratosFlow::Recovery(a), KratosFlow::Recovery(b)) => a.differs_only_in_action(&b),
        (KratosFlow::Verification(a), KratosFlow::Verification(b)) => a.differs_only_in_action(&b),
        (KratosFlow::Settings(a), KratosFlow::Settings(b)) => a.differs_only_in_action(&b),
        _ => false,
    }
}

/// What the browser gets from a direct route.
pub enum RouteResponse {
    /// A status and headers, no body.
    Headers { status_code: u16, headers: HeaderMap },
    /// The page of a Kratos flow, as HTML, with these status and headers.
    FlowPage { status_code: u16, headers: HeaderMap, flow: KratosFlow },
    /// The consent page, as HTML, with status 200.
    ConsentPage { request: ConsentUiNode },
    /// A 303 redirect to `location` (`Redirect::to`).
    SeeOther { location: String },
}

/// The public URLs of the application and of Kratos.
pub struct RouteConfig {
    pub kratos_public_url: String,
    pub public_base_url: String,
}

/// The headers forwarded from the browser by the direct routes.
pub open spec fn direct_forward_keys() -> Seq<Seq<char>> {
    seq![
        "cookie"@,
        "user-agent"@,
        "accept"@,
        "accept-language"@,
        "x-forwarded-for"@,
        "x-real-ip"@,
        "x-forwarded-proto"@,
        "x-forwarded-host"@,
    ]
}

/// For each key in order, the first value of `incoming` under that key,
/// when there is one.
pub open spec fn first_values(incoming: Seq<(Seq<char>, Seq<u8>)>, keys: Seq<Seq<char>>) -> Seq<(Seq<char>, Seq<u8>)>
    decreases keys.len(),
{
    if keys.len() == 0 {
        Seq::empty()
    } else {
        let rest = first_values(incoming, keys.drop_last());
        let vs = values_of(incoming, keys.last());
        if vs.len() > 0 {
            rest.push((keys.last(), vs[0]))
        } else {
            rest
        }
    }
}

/// The Kratos client of the direct routes: the Kratos public URL.
pub struct KratosClient {
    public_url: String,
}

impl View for KratosClient {
    type V = Seq<char>;

    closed spec fn view(&self) -> Seq<char> {
        self.public_url@
    }
}

/// A GET with the given URL, the browser's first forwarded headers and no
/// body.
pub open spec fn is_direct_get(req: OutgoingRequest, url: Seq<char>, incoming: Seq<(Seq<char>, Seq<u8>)>) -> bool {
    &&& req.method == Method::Get
    &&& req.url@ == url
    &&& req.headers@ == first_values(incoming, direct_forward_keys())
    &&& req.body is Empty
}

/// A failed status: a Kratos error with `prefix` and the status text.
pub open spec fn kratos_failure(r: AppResult<()>, prefix: Seq<char>, status: u16) -> bool {
    r matches Err(e) && e matches AppError::Kratos(m) && m@ == prefix + status_code_text(status)
}

impl KratosClient {
    pub fn new(public_url: String) -> (c: KratosClient)
        ensures
            c@ == public_url@,
    {
        KratosClient { public_url }
    }

    /// The browser headers forwarded to Kratos: the first value of the
    /// cookie, user agent, accept and proxy headers.
    pub fn copy_forward_headers(&self, incoming: &HeaderMap) -> (h: HeaderMap)
        ensures
            h@ == first_values(incoming@, direct_forward_keys()),
    {
        let keys = vec![
            "cookie",
            "user-agent",
            "accept",
            "accept-language",
            "x-forwarded-for",
            "x-real-ip",
            "x-forwarded-proto",
            "x-forwarded-host",
        ];
        let ghost ks = keys@.map_values(|k: &str| k@);
        assert(ks =~= direct_forward_keys());
        proof {
            lemma_known_header_names();
        }
        assert(forall|k: int| 0 <= k < keys@.len() ==> valid_header_name(#[trigger] keys@[k]@));
        let mut h = HeaderMap::new();
        let mut i: usize = 0;
        while i < keys.len()
            invariant
                i <= keys.len(),
                ks == keys@.map_values(|k: &str| k@),
                forall|k: int| 0 <= k < keys@.len() ==> valid_header_name(#[trigger] keys@[k]@),
                h@ == first_values(incoming@, ks.subrange(0, i as int)),
            decreases keys.len() - i,
        {
            assert(ks.subrange(0, i + 1).drop_last() =~= ks.subrange(0, i as int));
            assert(ks.subrange(0, i + 1).last() == keys@[i as int]@);
            match incoming.get(keys[i]) {
                Some(v) => h.append(keys[i], v),
                None => {},
            }
            i = i + 1;
        }
        assert(ks.subrange(0, 8) =~= ks);
        h
    }

    /// Accepts a flow id made of ASCII hex digits and `-` only.
    fn validate_flow_id(&self, flow_id: &str) -> (r: AppResult<()>)
        ensures
            r is Ok <==> valid_flow_id(flow_id@),
            r matches Err(e) ==> (e matches AppError::Kratos(m) && m@ == "Invalid flow ID format"@),
    {
        if !all_id_chars(flow_id, true) {
            return Err(AppError::Kratos("Invalid flow ID format".to_owned()));
        }
        Ok(())
    }

    /// The request that reads the flow `flow_id` of type `flow_type`; the
    /// id must be made of ASCII hex digits and `-`.
    pub fn get_flow(&self, flow_type: FlowType, flow_id: &str, headers: &HeaderMap) -> (r: AppResult<OutgoingRequest>)
        ensures
            !valid_flow_id(flow_id@) ==> (r matches Err(e) && e matches AppError::Kratos(m) && m@ == "Invalid flow ID format"@),
            valid_flow_id(flow_id@) ==> (r matches Ok(req) && is_direct_get(req, self@ + "/self-service/"@
                + flow_type_segment(flow_type) + "/flows?id="@ + flow_id@, headers@)),
    {
        self.validate_flow_id(flow_id)?;
        let mut url = concat3(self.public_url.as_str(), "/self-service/", flow_type.segment());
        url.append("/flows?id=");
        url.append(flow_id);
        Ok(OutgoingRequest { method: Method::Get, url, headers: self.copy_forward_headers(headers), body: RequestBody::Empty })
    }

    /// What the status of a flow read means: 2xx carries the flow.
    pub fn get_flow_outcome(flow_type: FlowType, status: u16) -> (r: AppResult<()>)
        requires
            valid_status(status),
        ensures
            spec_is_success(status) ==> r is Ok,
            !spec_is_success(status) ==> kratos_failure(r, "Failed to get "@ + flow_type_segment(flow_type) + " flow: "@, status),
    {
        if is_success(status) {
            return Ok(());
        }
        let mut m = concat3("Failed to get ", flow_type.segment(), " flow: ");
        m.append(status_text(status).as_str());
        Err(AppError::Kratos(m))
    }

    /// Kratos' answer to a flow read: a 2xx status carries the flow, which
    /// goes to the browser with the answer's `set-cookie` values, in order;
    /// any other status fails naming it.
    pub fn get_flow_on_answer(flow_type: FlowType, status: u16, answer: &HeaderMap) -> (r: AppResult<HeaderMap>)
        requires
            valid_status(status),
        ensures
            spec_is_success(status) ==> (r matches Ok(h) && h@ == answer_cookies(answer@)),
            !spec_is_success(status) ==> (r matches Err(e) && e matches AppError::Kratos(m) && m@ == "Failed to get "@
                + flow_type_segment(flow_type) + " flow: "@ + status_code_text(status)),
    {
        match KratosClient::get_flow_outcome(flow_type, status) {
            Ok(()) => Ok(cookies_only(answer)),
            Err(e) => Err(e),
        }
    }

    /// The request that reads the login flow `flow_id`.
    pub fn get_login_flow(&self, flow_id: &str, headers: &HeaderMap) -> (r: AppResult<OutgoingRequest>)
        ensures
            !valid_flow_id(flow_id@) ==> (r matches Err(e) && e matches AppError::Kratos(m) && m@ == "Invalid flow ID format"@),
            valid_flow_id(flow_id@) ==> (r matches Ok(req) && is_direct_get(req, self@ + "/self-service/login/flows?id="@
                + flow_id@, headers@)),
    {
        proof {
            reveal_strlit("/self-service/");
            reveal_strlit("login");
            reveal_strlit("/flows?id=");
            reveal_strlit("/self-service/login/flows?id=");
            assert(self@ + "/self-service/"@ + flow_type_segment(FlowType::Login) + "/flows?id="@ + flow_id@
                =~= self@ + "/self-service/login/flows?id="@ + flow_id@);
        }
        self.get_flow(FlowType::Login, flow_id, headers)
    }

    /// The request that reads the registration flow `flow_id`.
    pub fn get_registration_flow(&self, flow_id: &str, headers: &HeaderMap) -> (r: AppResult<OutgoingRequest>)
        ensures
            !valid_flow_id(flow_id@) ==> (r matches Err(e) && e matches AppError::Kratos(m) && m@ == "Invalid flow ID format"@),
            valid_flow_id(flow_id@) ==> (r matches Ok(req) && is_direct_get(req, self@ + "/self-service/registration/flows?id="@
                + flow_id@, headers@)),
    {
        proof {
            reveal_strlit("/self-service/");
            reveal_strlit("registration");
            reveal_strlit("/flows?id=");
            reveal_strlit("/self-service/registration/flows?id=");
            assert(self@ + "/self-service/"@ + flow_type_segment(FlowType::Registration) + "/flows?id="@ + flow_id@
                =~= self@ + "/self-service/registration/flows?id="@ + flow_id@);
        }
        self.get_flow(FlowType::Registration, flow_id, headers)
    }

    /// The request that reads the recovery flow `flow_id`.
    pub fn get_recovery_flow(&self, flow_id: &str, headers: &HeaderMap) -> (r: AppResult<OutgoingRequest>)
        ensures
            !valid_flow_id(flow_id@) ==> (r matches Err(e) && e matches AppError::Kratos(m) && m@ == "Invalid flow ID format"@),
            valid_flow_id(flow_id@) ==> (r matches Ok(req) && is_direct_get(req, self@ + "/self-service/recovery/flows?id="@
                + flow_id@, headers@)),
    {
        proof {
            reveal_strlit("/self-service/");
            reveal_strlit("recovery");
            reveal_strlit("/flows?id=");
            reveal_strlit("/self-service/recovery/flows?id=");
            assert(self@ + "/self-service/"@ + flow_type_segment(FlowType::Recovery) + "/flows?id="@ + flow_id@
                =~= self@ + "/self-service/recovery/flows?id="@ + flow_id@);
        }
        self.get_flow(FlowType::Recovery, flow_id, headers)
    }

    /// The request that reads the verification flow `flow_id`.
    pub fn get_verification_flow(&self, flow_id: &str, headers: &HeaderMap) -> (r: AppResult<OutgoingRequest>)
        ensures
            !valid_flow_id(flow_id@) ==> (r matches Err(e) && e matches AppError::Kratos(m) && m@ == "Invalid flow ID format"@),
            valid_flow_id(flow_id@) ==> (r matches Ok(req) && is_direct_get(req, self@ + "/self-service/verification/flows?id="@
                + flow_id@, headers@)),
    {
        proof {
            reveal_strlit("/self-service/");
            reveal_strlit("verification");
            reveal_strlit("/flows?id=");
            reveal_strlit("/self-service/verification/flows?id=");
            assert(self@ + "/self-service/"@ + flow_type_segment(FlowType::Verification) + "/flows?id="@ + flow_id@
                =~= self@ + "/self-service/verification/flows?id="@ + flow_id@);
        }
        self.get_flow(FlowType::Verification, flow_id, headers)
    }

    /// The request that reads the settings flow `flow_id`.
    pub fn get_settings_flow(&self, flow_id: &str, headers: &HeaderMap) -> (r: AppResult<OutgoingRequest>)
        ensures
            !valid_flow_id(flow_id@) ==> (r matches Err(e) && e matches AppError::Kratos(m) && m@ == "Invalid flow ID format"@),
            valid_flow_id(flow_id@) ==> (r matches Ok(req) && is_direct_get(req, self@ + "/self-service/settings/flows?id="@
                + flow_id@, headers@)),
    {
        proof {
            reveal_strlit("/self-service/");
            reveal_strlit("settings");
            reveal_strlit("/flows?id=");
            reveal_strlit("/self-service/settings/flows?id=");
            assert(self@ + "/self-service/"@ + flow_type_segment(FlowType::Settings) + "/flows?id="@ + flow_id@
                =~= self@ + "/self-service/settings/flows?id="@ + flow_id@);
        }
        self.get_flow(FlowType::Settings, flow_id, headers)
    }

    /// The request that reads the browser's session.
    pub fn check_session(&self, headers: &HeaderMap) -> (req: OutgoingRequest)
        ensures
            is_direct_get(req, self@ + "/sessions/whoami"@, headers@),
    {
        let url = concat2(self.public_url.as_str(), "/sessions/whoami");
        OutgoingRequest { method: Method::Get, url, headers: self.copy_forward_headers(headers), body: RequestBody::Empty }
    }

    /// What the status of the session read means: 401 is no session,
    /// another status outside 2xx is a Kratos failure.
    pub fn check_session_outcome(status: u16) -> (r: AppResult<()>)
        requires
            valid_status(status),
        ensures
            status == 401 ==> (r matches Err(e) && e matches AppError::Unauthorized(m) && m@ == "No active session found"@),
            status != 401 && !spec_is_success(status) ==> kratos_failure(r, "Failed checking session: "@, status),
            status != 401 && spec_is_success(status) ==> r is Ok,
    {
        if status == UNAUTHORIZED {
            return Err(AppError::Unauthorized("No active session found".to_owned()));
        }
        if !is_success(status) {
            return Err(AppError::Kratos(concat2("Failed checking session: ", status_text(status).as_str())));
        }
        Ok(())
    }

    /// The request that reads a self-service error; the id must be made of
    /// ASCII letters, digits and `-`.
    pub fn get_error(&self, id: &str) -> (r: AppResult<OutgoingRequest>)
        ensures
            !valid_error_id(id@) ==> (r matches Err(e) && e matches AppError::Kratos(m) && m@ == "Invalid error ID format"@),
            valid_error_id(id@) ==> (r matches Ok(req) && req.method == Method::Get && req.url@ == self@
                + "/self-service/errors?id="@ + id@ && req.headers@.len() == 0 && req.body is Empty),
    {
        if !all_id_chars(id, false) {
            return Err(AppError::Kratos("Invalid error ID format".to_owned()));
        }
        let url = concat3(self.public_url.as_str(), "/self-service/errors?id=", id);
        Ok(OutgoingRequest { method: Method::Get, url, headers: HeaderMap::new(), body: RequestBody::Empty })
    }

    /// What the status of the error read means.
    pub fn get_error_outcome(status: u16) -> (r: AppResult<()>)
        requires
            valid_status(status),
        ensures
            spec_is_success(status) ==> r is Ok,
            !spec_is_success(status) ==> kratos_failure(r, "Failed to fetch Kratos error: "@, status),
    {
        if is_success(status) {
            return Ok(());
        }
        Err(AppError::Kratos(concat2("Failed to fetch Kratos error: ", status_text(status).as_str())))
    }

    /// The request that starts a browser logout flow.
    pub fn create_logout_flow(&self, headers: &HeaderMap, return_to: Option<&str>) -> (req: OutgoingRequest)
        ensures
            is_direct_get(req, crate::kratos::spec_logout_url(self@, match return_to {
                Some(rt) => Some(rt@),
                None => None,
            }), headers@),
    {
        let service = KratosService::new(self.public_url.clone());
        let r = service.create_logout_flow(&HeaderMap::new(), return_to);
        OutgoingRequest { method: Method::Get, url: r.url, headers: self.copy_forward_headers(headers), body: RequestBody::Empty }
    }

    /// What the status of the logout-flow creation means.
    pub fn create_logout_flow_outcome(status: u16) -> (r: AppResult<()>)
        requires
            valid_status(status),
        ensures
            status == 401 ==> (r matches Err(e) && e matches AppError::Unauthorized(m)
                && m@ == "No active session \u{2014} cannot create logout flow"@),
            status != 401 && !spec_is_success(status) ==> kratos_failure(r, "Failed to create logout flow: "@, status),
            status != 401 && spec_is_success(status) ==> r is Ok,
    {
        if status == UNAUTHORIZED {
            return Err(AppError::Unauthorized("No active session \u{2014} cannot create logout flow".to_owned()));
        }
        if !is_success(status) {
            return Err(AppError::Kratos(concat2("Failed to create logout flow: ", status_text(status).as_str())));
        }
        Ok(())
    }
}


/// The query suffix of a direct route: `?` and the encoded parameters, or
/// nothing when there are none.
pub open spec fn query_suffix(params: Seq<(Seq<char>, Seq<char>)>) -> Seq<char> {
    if params.len() > 0 {
        "?"@ + encoded_or_empty(params)
    } else {
        Seq::empty()
    }
}

fn query_of(params: &Params) -> (q: String)
    ensures
        q@ == query_suffix(params@),
{
    if params.is_empty() {
        String::new()
    } else {
        let pairs = params.pairs();
        let encoded = urlencode_or_empty(&pairs);
        concat2("?", encoded.as_str())
    }
}

/// What to do with Kratos' answer on a direct route.
pub enum RouteAnswer {
    /// Answer the browser with this.
    Respond(RouteResponse),
    /// Read the body; answer with these headers (the cookies) when it holds
    /// the flow.
    ReadBody { headers: HeaderMap },
    /// The route fails.
    Failed(AppError),
}

/// The `set-cookie` entries of an answer.
pub open spec fn answer_cookies(answer: Seq<(Seq<char>, Seq<u8>)>) -> Seq<(Seq<char>, Seq<u8>)> {
    entries_for("set-cookie"@, values_of(answer, "set-cookie"@))
}

/// The headers of a redirect on a direct route: the cookies, then the
/// first location rewritten by `rewrite_kratos_redirect` when the result
/// is a valid header value.
pub open spec fn route_redirect_headers(config: RouteConfig, answer: Seq<(Seq<char>, Seq<u8>)>) -> Seq<(Seq<char>, Seq<u8>)> {
    let local = spec_rewrite_kratos_redirect(
        header_text_or_empty(values_of(answer, "location"@)[0]),
        config.kratos_public_url@,
        config.public_base_url@,
    );
    match header_value_of_text(local) {
        Some(v) => answer_cookies(answer).push(("location"@, v)),
        None => answer_cookies(answer),
    }
}

/// A redirect answer (3xx with a location) goes back to the browser with
/// the rewritten location.
pub open spec fn is_route_redirect(a: RouteAnswer, config: RouteConfig, status: u16, answer: Seq<(Seq<char>, Seq<u8>)>) -> bool {
    a matches RouteAnswer::Respond(RouteResponse::Headers { status_code, headers }) && status_code == status
        && headers@ == route_redirect_headers(config, answer)
}

fn route_redirect(config: &RouteConfig, status: u16, answer: &HeaderMap) -> (a: RouteAnswer)
    requires
        values_of(answer@, "location"@).len() > 0,
    ensures
        is_route_redirect(a, *config, status, answer@),
{
    let cookies = answer.get_all("set-cookie");
    let mut headers = HeaderMap::new();
    proof {
        lemma_known_header_names();
    }
    headers.append_all("set-cookie", &cookies);
    let location = answer.get_all("location");
    assert(location@.map_values(|v: HeaderValue| v@)[0] == location@[0]@);
    let text = match location[0].to_str() {
        Some(t) => t,
        None => String::new(),
    };
    let local = rewrite_kratos_redirect(text.as_str(), config.kratos_public_url.as_str(), config.public_base_url.as_str());
    proof {
        lemma_known_header_names();
    }
    match HeaderValue::from_str(local.as_str()) {
        Some(v) => headers.append("location", v),
        None => {},
    }
    RouteAnswer::Respond(RouteResponse::Headers { status_code: status, headers })
}

fn cookies_only(answer: &HeaderMap) -> (h: HeaderMap)
    ensures
        h@ == answer_cookies(answer@),
{
    let cookies = answer.get_all("set-cookie");
    let mut headers = HeaderMap::new();
    proof {
        lemma_known_header_names();
    }
    headers.append_all("set-cookie", &cookies);
    headers
}

/// The flow with its form posting to the rewritten action.
pub open spec fn is_rewritten_flow(g: KratosFlow, f: KratosFlow, config: RouteConfig) -> bool {
    &&& kratos_flow_action(g) == spec_rewrite_action_url(kratos_flow_action(f), config.kratos_public_url@, config.public_base_url@)
    &&& kratos_flow_differs_only_in_action(f, g)
}

fn rewrite_flow<F: FormFlow>(flow: F, config: &RouteConfig) -> (g: F)
    ensures
        g.spec_action() == spec_rewrite_action_url(flow.spec_action(), config.kratos_public_url@, config.public_base_url@),
        flow.differs_only_in_action(&g),
{
    let action = rewrite_action_url(flow.action(), config.kratos_public_url.as_str(), config.public_base_url.as_str());
    flow.set_action(action)
}

/// The flow with its form action rewritten for the browser.
pub fn rewrite_kratos_flow(flow: KratosFlow, config: &RouteConfig) -> (g: KratosFlow)
    ensures
        is_rewritten_flow(g, flow, *config),
{
    match flow {
        KratosFlow::Login(n) => KratosFlow::Login(rewrite_flow(n, config)),
        KratosFlow::Registration(n) => KratosFlow::Registration(rewrite_flow(n, config)),
        KratosFlow::Recovery(n) => KratosFlow::Recovery(rewrite_flow(n, config)),
        KratosFlow::Verification(n) => KratosFlow::Verification(rewrite_flow(n, config)),
        KratosFlow::Settings(n) => KratosFlow::Settings(rewrite_flow(n, config)),
    }
}

/// The page of a flow read by its id: status 200, the cookies of the
/// answer, and the form posting to the rewritten action.
pub fn flow_page(config: &RouteConfig, flow: KratosFlow, cookies: HeaderMap) -> (r: RouteResponse)
    ensures
        r matches RouteResponse::FlowPage { status_code, headers, flow: g } && status_code == 200 && headers@ == cookies@
            && is_rewritten_flow(g, flow, *config),
{
    RouteResponse::FlowPage { status_code: 200, headers: cookies, flow: rewrite_kratos_flow(flow, config) }
}

/// The next step of a GET on a self-service route.
pub enum GetFlowStep {
    /// Read the flow named by the `flow` parameter.
    ReadFlow { flow_id: String },
    /// Start a new browser flow.
    InitFlow,
}

/// A GET on a self-service route reads the flow named by the `flow`
/// parameter, or starts a new flow.
pub fn get_flow_start(params: &Params) -> (step: GetFlowStep)
    ensures
        match lookup(params@, "flow"@) {
            Some(id) => step matches GetFlowStep::ReadFlow { flow_id } && flow_id@ == id,
            None => step is InitFlow,
        },
{
    match params.get("flow") {
        Some(flow_id) => GetFlowStep::ReadFlow { flow_id },
        None => GetFlowStep::InitFlow,
    }
}

/// The request that starts a browser flow of the route named `flow_type`.
pub fn init_flow_request(config: &RouteConfig, kratos: &KratosClient, flow_type: &str, headers: &HeaderMap, params: &Params) -> (req: OutgoingRequest)
    ensures
        is_direct_get(req, config.kratos_public_url@ + "/self-service/"@ + flow_type@ + "/browser"@ + query_suffix(params@), headers@),
{
    let mut url = concat3(config.kratos_public_url.as_str(), "/self-service/", flow_type);
    url.append("/browser");
    url.append(query_of(params).as_str());
    OutgoingRequest { method: Method::Get, url, headers: kratos.copy_forward_headers(headers), body: RequestBody::Empty }
}

/// Kratos' answer to starting a flow: a redirect with a location goes back
/// to the browser rewritten; a 2xx answer has its flow read; any other
/// answer fails the route.
pub fn init_flow_on_answer(config: &RouteConfig, flow_type: &str, status: u16, answer: &HeaderMap) -> (a: RouteAnswer)
    requires
        valid_status(status),
    ensures
        spec_is_redirection(status) && values_of(answer@, "location"@).len() > 0 ==> is_route_redirect(a, *config, status, answer@),
        !(spec_is_redirection(status) && values_of(answer@, "location"@).len() > 0) && spec_is_success(status) ==> (a matches RouteAnswer::ReadBody {
            headers,
        } && headers@ == answer_cookies(answer@)),
        !(spec_is_redirection(status) && values_of(answer@, "location"@).len() > 0) && !spec_is_success(status) ==> (a matches RouteAnswer::Failed(e)
            && e matches AppError::Kratos(m) && m@ == "Failed to initialize "@ + flow_type@ + " flow: status "@
            + status_code_text(status)),
{
    if is_redirection(status) && answer.get("location").is_some() {
        return route_redirect(config, status, answer);
    }
    if is_success(status) {
        return RouteAnswer::ReadBody { headers: cookies_only(answer) };
    }
    let mut m = concat3("Failed to initialize ", flow_type, " flow: status ");
    m.append(status_text(status).as_str());
    RouteAnswer::Failed(AppError::Kratos(m))
}

/// The body of a started flow: the flow page with status 200 when it holds
/// a flow of the route's type; a failure otherwise (a body that could not
/// be read is a network failure).
pub fn init_flow_on_body(
    config: &RouteConfig,
    flow_type: &str,
    status: u16,
    cookies: HeaderMap,
    body: Result<Option<KratosFlow>, String>,
) -> (r: AppResult<RouteResponse>)
    requires
        valid_status(status),
    ensures
        body matches Err(msg) ==> (r matches Err(e) && e matches AppError::Network(m) && m@ == msg@),
        body matches Ok(Some(f)) ==> (r matches Ok(RouteResponse::FlowPage { status_code, headers, flow: g }) && status_code
            == 200 && headers@ == cookies@ && is_rewritten_flow(g, f, *config)),
        body matches Ok(None) ==> (r matches Err(e) && e matches AppError::Kratos(m) && m@ == "Failed to initialize "@
            + flow_type@ + " flow: status "@ + status_code_text(status)),
{
    match body {
        Err(msg) => Err(AppError::Network(msg)),
        Ok(Some(f)) => Ok(flow_page(config, f, cookies)),
        Ok(None) => {
            let mut m = concat3("Failed to initialize ", flow_type, " flow: status ");
            m.append(status_text(status).as_str());
            Err(AppError::Kratos(m))
        },
    }
}

/// The request that submits a browser form to the route named `flow_type`:
/// the forwarded headers, then the browser's content type when it sent one.
pub fn proxy_post_request(
    config: &RouteConfig,
    kratos: &KratosClient,
    flow_type: &str,
    headers: &HeaderMap,
    params: &Params,
    body: Vec<u8>,
) -> (req: OutgoingRequest)
    ensures
        req.method == Method::Post,
        req.url@ == config.kratos_public_url@ + "/self-service/"@ + flow_type@ + query_suffix(params@),
        req.headers@ == ({
            let ct = values_of(headers@, "content-type"@);
            let fwd = first_values(headers@, direct_forward_keys());
            if ct.len() > 0 {
                fwd.push(("content-type"@, ct[0]))
            } else {
                fwd
            }
        }),
        req.body matches RequestBody::Raw(b) && b@ == body@,
{
    let mut url = concat3(config.kratos_public_url.as_str(), "/self-service/", flow_type);
    url.append(query_of(params).as_str());
    let mut fwd = kratos.copy_forward_headers(headers);
    proof {
        lemma_known_header_names();
    }
    match headers.get("content-type") {
        Some(v) => fwd.append("content-type", v),
        None => {},
    }
    OutgoingRequest { method: Method::Post, url, headers: fwd, body: RequestBody::Raw(body) }
}

/// Kratos' answer to a submitted form: a redirect with a location goes back
/// to the browser rewritten; otherwise the body is read.
pub fn proxy_post_on_answer(config: &RouteConfig, status: u16, answer: &HeaderMap) -> (a: RouteAnswer)
    ensures
        spec_is_redirection(status) && values_of(answer@, "location"@).len() > 0 ==> is_route_redirect(a, *config, status, answer@),
        !(spec_is_redirection(status) && values_of(answer@, "location"@).len() > 0) ==> (a matches RouteAnswer::ReadBody {
            headers,
        } && headers@ == answer_cookies(answer@)),
{
    if is_redirection(status) && answer.get("location").is_some() {
        return route_redirect(config, status, answer);
    }
    RouteAnswer::ReadBody { headers: cookies_only(answer) }
}

/// The body after a submitted form: with a 2xx or 400 status and a flow of
/// the route's type, the flow page with that status; otherwise a failure
/// naming the status.
pub fn proxy_post_on_body(
    config: &RouteConfig,
    status: u16,
    cookies: HeaderMap,
    body: Result<Option<KratosFlow>, String>,
) -> (r: AppResult<RouteResponse>)
    requires
        valid_status(status),
    ensures
        body matches Err(msg) ==> (r matches Err(e) && e matches AppError::Network(m) && m@ == msg@),
        body matches Ok(parsed) ==> (if (spec_is_success(status) || status == 400) && parsed is Some {
            r matches Ok(RouteResponse::FlowPage { status_code, headers, flow: g }) && status_code == status
                && headers@ == cookies@ && is_rewritten_flow(g, parsed.unwrap(), *config)
        } else {
            r matches Err(e) && e matches AppError::Kratos(m) && m@ == "Form submission failed (status "@
                + status_code_text(status) + ")"@
        }),
{
    match body {
        Err(msg) => Err(AppError::Network(msg)),
        Ok(parsed) => {
            if is_success(status) || status == 400 {
                if let Some(f) = parsed {
                    return Ok(RouteResponse::FlowPage {
                        status_code: status,
                        headers: cookies,
                        flow: rewrite_kratos_flow(f, config),
                    });
                }
            }
            let m = concat3("Form submission failed (status ", status_text(status).as_str(), ")");
            Err(AppError::Kratos(m))
        },
    }
}

} // verus!
