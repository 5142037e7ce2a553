//! The OIDC service: requests to the Hydra admin API and the meaning of its
//! answers.
use vstd::prelude::*;
use crate::text::{concat2, concat3};
use crate::headers::HeaderMap;
use crate::status::{is_success, spec_is_success, status_text, status_code_text, valid_status};
use crate::domain::{AcceptConsentRequest, AcceptLoginRequest, RejectRequest};
use crate::errors::{AppError, AppResult, OidcError, OidcResult};
use crate::requests::{Method, OutgoingRequest, RequestBody};

verus! {

/// The calls to the Hydra admin API.
#[derive(Clone, Copy, Debug, PartialEq, Eq, Structural)]
pub enum OidcCall {
    GetLogin,
    AcceptLogin,
    RejectLogin,
    GetConsent,
    AcceptConsent,
    RejectConsent,
    GetLogout,
    AcceptLogout,
}

/// The path and query key of a call, up to the challenge.
pub open spec fn call_path(c: OidcCall) -> Seq<char> {
    match c {
        OidcCall::GetLogin => "/oauth2/auth/requests/login?login_challenge="@,
        OidcCall::AcceptLogin => "/oauth2/auth/requests/login/accept?login_challenge="@,
        OidcCall::RejectLogin => "/oauth2/auth/requests/login/reject?login_challenge="@,
        OidcCall::GetConsent => "/oauth2/auth/requests/consent?consent_challenge="@,
        OidcCall::AcceptConsent => "/oauth2/auth/requests/consent/accept?consent_challenge="@,
        OidcCall::RejectConsent => "/oauth2/auth/requests/consent/reject?consent_challenge="@,
        OidcCall::GetLogout => "/oauth2/auth/requests/logout?logout_challenge="@,
        OidcCall::AcceptLogout => "/oauth2/auth/requests/logout/accept?logout_challenge="@,
    }
}

/// Reads are GETs; accepting and rejecting are PUTs.
pub open spec fn call_method(c: OidcCall) -> Method {
    match c {
        OidcCall::GetLogin | OidcCall::GetConsent | OidcCall::GetLogout => Method::Get,
        _ => Method::Put,
    }
}

/// The URL of a call on the admin API at `admin_url`.
pub open spec fn call_url(admin_url: Seq<char>, c: OidcCall, challenge: Seq<char>) -> Seq<char> {
    admin_url + call_path(c) + challenge
}

/// The error of a call answered with a status outside 2xx (as `HydraService`
/// reports it): whether it is a retrieve error, and its message before and
/// after the status text.
pub open spec fn service_error_parts(c: OidcCall) -> (bool, Seq<char>, Seq<char>) {
    match c {
        OidcCall::GetLogin => (true, "Failed to retrieve login request. status_code=("@, ")"@),
        OidcCall::AcceptLogin => (false, "Failed to accept login request. status_code=("@, ")"@),
        OidcCall::RejectLogin => (true, "Failed to reject login request: "@, ""@),
        OidcCall::GetConsent => (true, "Failed to retrieve consent request. status_code=("@, ")"@),
        OidcCall::AcceptConsent => (false, "Failed to accept consent request. status_code=("@, ")"@),
        OidcCall::RejectConsent => (false, "Failed to reject consent request. status_code=("@, ")"@),
        OidcCall::GetLogout => (true, "Failed to retrieve logout request: "@, ""@),
        OidcCall::AcceptLogout => (false, "Failed to accept logout request. status_code=("@, ")"@),
    }
}

/// The message of a call answered with a status outside 2xx, as
/// `HydraClient` reports it.
pub open spec fn client_error_prefix(c: OidcCall) -> Seq<char> {
    match c {
        OidcCall::GetLogin => "Failed to retrieve login request: "@,
        OidcCall::AcceptLogin => "Failed to accept login request: "@,
        OidcCall::RejectLogin => "Failed to reject login request: "@,
        OidcCall::GetConsent => "Failed to retrieve consent request: "@,
        OidcCall::AcceptConsent => "Failed to accept consent request: "@,
        OidcCall::RejectConsent => "Failed to reject consent request: "@,
        OidcCall::GetLogout => "Failed to retrieve logout request: "@,
        OidcCall::AcceptLogout => "Failed to accept logout request: "@,
    }
}

/// The request of call `c`: method, URL, no header, and `body`.
pub open spec fn is_call_request(req: OutgoingRequest, admin_url: Seq<char>, c: OidcCall, challenge: Seq<char>) -> bool {
    &&& req.method == call_method(c)
    &&& req.url@ == call_url(admin_url, c, challenge)
    &&& req.headers@.len() == 0
}

impl OidcCall {
    fn path(&self) -> (p: &'static str)
        ensures
            p@ == call_path(*self),
    {
        match self {
            OidcCall::GetLogin => "/oauth2/auth/requests/login?login_challenge=",
            OidcCall::AcceptLogin => "/oauth2/auth/requests/login/accept?login_challenge=",
            OidcCall::RejectLogin => "/oauth2/auth/requests/login/reject?login_challenge=",
            OidcCall::GetConsent => "/oauth2/auth/requests/consent?consent_challenge=",
            OidcCall::AcceptConsent => "/oauth2/auth/requests/consent/accept?consent_challenge=",
            OidcCall::RejectConsent => "/oauth2/auth/requests/consent/reject?consent_challenge=",
            OidcCall::GetLogout => "/oauth2/auth/requests/logout?logout_challenge=",
            OidcCall::AcceptLogout => "/oauth2/auth/requests/logout/accept?logout_challenge=",
        }
    }

    fn method(&self) -> (m: Method)
        ensures
            m == call_method(*self),
    {
        match self {
            OidcCall::GetLogin | OidcCall::GetConsent | OidcCall::GetLogout => Method::Get,
            _ => Method::Put,
        }
    }

    fn service_error(&self) -> (r: (bool, &'static str, &'static str))
        ensures
            (r.0, r.1@, r.2@) == service_error_parts(*self),
    {
        match self {
            OidcCall::GetLogin => (true, "Failed to retrieve login request. status_code=(", ")"),
            OidcCall::AcceptLogin => (false, "Failed to accept login request. status_code=(", ")"),
            OidcCall::RejectLogin => (true, "Failed to reject login request: ", ""),
            OidcCall::GetConsent => (true, "Failed to retrieve consent request. status_code=(", ")"),
            OidcCall::AcceptConsent => (false, "Failed to accept consent request. status_code=(", ")"),
            OidcCall::RejectConsent => (false, "Failed to reject consent request. status_code=(", ")"),
            OidcCall::GetLogout => (true, "Failed to retrieve logout request: ", ""),
            OidcCall::AcceptLogout => (false, "Failed to accept logout request. status_code=(", ")"),
        }
    }

    fn client_error(&self) -> (p: &'static str)
        ensures
            p@ == client_error_prefix(*self),
    {
        match self {
            OidcCall::GetLogin => "Failed to retrieve login request: ",
            OidcCall::AcceptLogin => "Failed to accept login request: ",
            OidcCall::RejectLogin => "Failed to reject login request: ",
            OidcCall::GetConsent => "Failed to retrieve consent request: ",
            OidcCall::AcceptConsent => "Failed to accept consent request: ",
            OidcCall::RejectConsent => "Failed to reject consent request: ",
            OidcCall::GetLogout => "Failed to retrieve logout request: ",
            OidcCall::AcceptLogout => "Failed to accept logout request: ",
        }
    }
}

fn call_request(admin_url: &str, call: OidcCall, challenge: &str, body: RequestBody) -> (req: OutgoingRequest)
    ensures
        is_call_request(req, admin_url@, call, challenge@),
        req.body == body,
{
    let url = concat3(admin_url, call.path(), challenge);
    OutgoingRequest { method: call.method(), url, headers: HeaderMap::new(), body }
}

/// What the status of a call's answer means for `HydraService`: a 2xx
/// status carries the answer; any other is a retrieve or accept error
/// naming the status.
pub fn service_outcome(call: OidcCall, status: u16) -> (r: OidcResult<()>)
    requires
        valid_status(status),
    ensures
        spec_is_success(status) ==> r is Ok,
        !spec_is_success(status) ==> ({
            let (retrieve, pre, post) = service_error_parts(call);
            let msg = pre + status_code_text(status) + post;
            if retrieve {
                r matches Err(e) && e matches OidcError::RetrieveRequest(m) && m@ == msg
            } else {
                r matches Err(e) && e matches OidcError::AcceptRequest(m) && m@ == msg
            }
        }),
{
    if is_success(status) {
        return Ok(());
    }
    let (retrieve, pre, post) = call.service_error();
    let text = status_text(status);
    let msg = concat3(pre, text.as_str(), post);
    if retrieve {
        Err(OidcError::RetrieveRequest(msg))
    } else {
        Err(OidcError::AcceptRequest(msg))
    }
}

/// What the status of a call's answer means for `HydraClient`: a 2xx
/// status carries the answer; any other is a Hydra error naming the status.
pub fn client_outcome(call: OidcCall, status: u16) -> (r: AppResult<()>)
    requires
        valid_status(status),
    ensures
        spec_is_success(status) ==> r is Ok,
        !spec_is_success(status) ==> (r matches Err(e) && e matches AppError::Hydra(m)
            && m@ == client_error_prefix(call) + status_code_text(status)),
{
    if is_success(status) {
        return Ok(());
    }
    let text = status_text(status);
    Err(AppError::Hydra(concat2(call.client_error(), text.as_str())))
}

/// The OIDC service: the Hydra admin URL.
pub struct HydraService {
    admin_url: String,
}

impl View for HydraService {
    type V = Seq<char>;

    closed spec fn view(&self) -> Seq<char> {
        self.admin_url@
    }
}

impl HydraService {
    pub fn new(admin_url: String) -> (s: HydraService)
        ensures
            s@ == admin_url@,
    {
        HydraService { admin_url }
    }

    /// The request that reads a login request.
    pub fn get_login_request(&self, challenge: &str) -> (req: OutgoingRequest)
        ensures
            is_call_request(req, self@, OidcCall::GetLogin, challenge@),
            req.body is Empty,
    {
        call_request(self.admin_url.as_str(), OidcCall::GetLogin, challenge, RequestBody::Empty)
    }

    /// The request that accepts a login request with `body`.
    pub fn accept_login_request(&self, challenge: &str, body: AcceptLoginRequest) -> (req: OutgoingRequest)
        ensures
            is_call_request(req, self@, OidcCall::AcceptLogin, challenge@),
            req.body == RequestBody::AcceptLogin(body),
    {
        call_request(self.admin_url.as_str(), OidcCall::AcceptLogin, challenge, RequestBody::AcceptLogin(body))
    }

    /// The request that rejects a login request with `body`.
    pub fn reject_login_request(&self, challenge: &str, body: RejectRequest) -> (req: OutgoingRequest)
        ensures
            is_call_request(req, self@, OidcCall::RejectLogin, challenge@),
            req.body == RequestBody::Reject(body),
    {
        call_request(self.admin_url.as_str(), OidcCall::RejectLogin, challenge, RequestBody::Reject(body))
    }

    /// The request that reads a consent request.
    pub fn get_consent_request(&self, challenge: &str) -> (req: OutgoingRequest)
        ensures
            is_call_request(req, self@, OidcCall::GetConsent, challenge@),
            req.body is Empty,
    {
        call_request(self.admin_url.as_str(), OidcCall::GetConsent, challenge, RequestBody::Empty)
    }

    /// The request that accepts a consent request with `body`.
    pub fn accept_consent_request(&self, challenge: &str, body: AcceptConsentRequest) -> (req: OutgoingRequest)
        ensures
            is_call_request(req, self@, OidcCall::AcceptConsent, challenge@),
            req.body == RequestBody::AcceptConsent(body),
    {
        call_request(self.admin_url.as_str(), OidcCall::AcceptConsent, challenge, RequestBody::AcceptConsent(body))
    }

    /// The request that rejects a consent request with `body`.
    pub fn reject_consent_request(&self, challenge: &str, body: RejectRequest) -> (req: OutgoingRequest)
        ensures
            is_call_request(req, self@, OidcCall::RejectConsent, challenge@),
            req.body == RequestBody::Reject(body),
    {
        call_request(self.admin_url.as_str(), OidcCall::RejectConsent, challenge, RequestBody::Reject(body))
    }

    /// The request that reads a logout request.
    pub fn get_logout_request(&self, challenge: &str) -> (req: OutgoingRequest)
        ensures
            is_call_request(req, self@, OidcCall::GetLogout, challenge@),
            req.body is Empty,
    {
        call_request(self.admin_url.as_str(), OidcCall::GetLogout, challenge, RequestBody::Empty)
    }

    /// The request that accepts a logout request, with the body `{}`.
    pub fn accept_logout_request(&self, challenge: &str) -> (req: OutgoingRequest)
        ensures
            is_call_request(req, self@, OidcCall::AcceptLogout, challenge@),
            req.body is EmptyJsonObject,
    {
        call_request(self.admin_url.as_str(), OidcCall::AcceptLogout, challenge, RequestBody::EmptyJsonObject)
    }
}


/// The Hydra client of the application routes: the Hydra admin URL. Its
/// requests are those of [`HydraService`]; what their answers mean is
/// [`client_outcome`].
pub struct HydraClient {
    admin_url: String,
}

impl View for HydraClient {
    type V = Seq<char>;

    closed spec fn view(&self) -> Seq<char> {
        self.admin_url@
    }
}

impl HydraClient {
    pub fn new(admin_url: String) -> (c: HydraClient)
        ensures
            c@ == admin_url@,
    {
        HydraClient { admin_url }
    }

    /// The request that reads a login request.
    pub fn get_login_request(&self, challenge: &str) -> (req: OutgoingRequest)
        ensures
            is_call_request(req, self@, OidcCall::GetLogin, challenge@),
            req.body is Empty,
    {
        call_request(self.admin_url.as_str(), OidcCall::GetLogin, challenge, RequestBody::Empty)
    }

    /// The request that accepts a login request with `body`.
    pub fn accept_login_request(&self, challenge: &str, body: AcceptLoginRequest) -> (req: OutgoingRequest)
        ensures
            is_call_request(req, self@, OidcCall::AcceptLogin, challenge@),
            req.body == RequestBody::AcceptLogin(body),
    {
        call_request(self.admin_url.as_str(), OidcCall::AcceptLogin, challenge, RequestBody::AcceptLogin(body))
    }

    /// The request that rejects a login request with `body`.
    pub fn reject_login_request(&self, challenge: &str, body: RejectRequest) -> (req: OutgoingRequest)
        ensures
            is_call_request(req, self@, OidcCall::RejectLogin, challenge@),
            req.body == RequestBody::Reject(body),
    {
        call_request(self.admin_url.as_str(), OidcCall::RejectLogin, challenge, RequestBody::Reject(body))
    }

    /// The request that reads a consent request.
    pub fn get_consent_request(&self, challenge: &str) -> (req: OutgoingRequest)
        ensures
            is_call_request(req, self@, OidcCall::GetConsent, challenge@),
            req.body is Empty,
    {
        call_request(self.admin_url.as_str(), OidcCall::GetConsent, challenge, RequestBody::Empty)
    }

    /// The request that accepts a consent request with `body`.
    pub fn accept_consent_request(&self, challenge: &str, body: AcceptConsentRequest) -> (req: OutgoingRequest)
        ensures
            is_call_request(req, self@, OidcCall::AcceptConsent, challenge@),
            req.body == RequestBody::AcceptConsent(body),
    {
        call_request(self.admin_url.as_str(), OidcCall::AcceptConsent, challenge, RequestBody::AcceptConsent(body))
    }

    /// The request that rejects a consent request with `body`.
    pub fn reject_consent_request(&self, challenge: &str, body: RejectRequest) -> (req: OutgoingRequest)
        ensures
            is_call_request(req, self@, OidcCall::RejectConsent, challenge@),
            req.body == RequestBody::Reject(body),
    {
        call_request(self.admin_url.as_str(), OidcCall::RejectConsent, challenge, RequestBody::Reject(body))
    }

    /// The request that reads a logout request.
    pub fn get_logout_request(&self, challenge: &str) -> (req: OutgoingRequest)
        ensures
            is_call_request(req, self@, OidcCall::GetLogout, challenge@),
            req.body is Empty,
    {
        call_request(self.admin_url.as_str(), OidcCall::GetLogout, challenge, RequestBody::Empty)
    }

    /// The request that accepts a logout request, with the body `{}`.
    pub fn accept_logout_request(&self, challenge: &str) -> (req: OutgoingRequest)
        ensures
            is_call_request(req, self@, OidcCall::AcceptLogout, challenge@),
            req.body is EmptyJsonObject,
    {
        call_request(self.admin_url.as_str(), OidcCall::AcceptLogout, challenge, RequestBody::EmptyJsonObject)
    }
}

} // verus!
