//! The login flow: the Kratos login form, and Hydra's login challenge.
use vstd::prelude::*;
use crate::text::concat3;
use crate::headers::{HeaderMap, lemma_visible_text_is_header_value};
use crate::params::{Params, lookup};
use crate::form::{urlencode_or_empty, encoded_or_empty, single_pair, form_char};
use crate::domain::{
    ActionResponse, AcceptLoginRequest, CompletedRequest, KratosSession, LoginRequest, LoginUiNode, UiNodeResponse,
};
use crate::errors::{FlowError, FlowResult, IdentityResult, OidcResult};
use crate::kratos::KratosService;
use crate::hydra::HydraService;
use crate::url_rewrite::UrlRewriter;
use crate::flows::common::{see_other, is_see_other, params_debug, debug_params, login_request_debug, debug_login_request};
use crate::flows::identity::form_flow_response;
use crate::flows::variants::FormFlow;

verus! {

/// The login handler: the identity and OIDC services and the URL rewriter.
pub struct LoginFlowHandler<R: UrlRewriter> {
    pub identity_service: KratosService,
    pub oidc_service: HydraService,
    pub url_rewriter: R,
}

/// The next step of a login challenge.
pub enum LoginActionStep {
    /// Read the login request of the challenge from Hydra.
    GetLoginRequest { challenge: String },
    /// Read the browser's Kratos session.
    CheckSession { challenge: String },
    /// Accept the login request with this body.
    AcceptLogin { challenge: String, body: AcceptLoginRequest },
    /// The handler's answer.
    Done(FlowResult<ActionResponse>),
}

/// The body that accepts a login for `subject`, remembered for an hour.
pub open spec fn is_remembered_login(body: AcceptLoginRequest, subject: Seq<char>) -> bool {
    &&& body.subject@ == subject
    &&& body.remember == Some(true)
    &&& body.remember_for == Some(3600i64)
    &&& body.acr is None
    &&& body.context is None
}

/// The local login page that keeps the challenge.
pub open spec fn login_page_with_challenge(challenge: Seq<char>) -> Seq<char> {
    "/login?"@ + encoded_or_empty(seq![("login_challenge"@, challenge)])
}

fn remembered_login(subject: String) -> (body: AcceptLoginRequest)
    ensures
        is_remembered_login(body, subject@),
{
    AcceptLoginRequest { subject, remember: Some(true), remember_for: Some(3600), acr: None, context: None }
}

impl<R: UrlRewriter> LoginFlowHandler<R> {
    pub fn new(identity_service: KratosService, oidc_service: HydraService, url_rewriter: R) -> (h: Self)
        ensures
            h.identity_service == identity_service,
            h.oidc_service == oidc_service,
            h.url_rewriter == url_rewriter,
    {
        LoginFlowHandler { identity_service, oidc_service, url_rewriter }
    }

    /// The login page: the identity service's answer, with the form
    /// posting to the rewritten action.
    pub fn fetch_ui(&self, r: IdentityResult<UiNodeResponse<LoginUiNode>>) -> (res: FlowResult<UiNodeResponse<LoginUiNode>>)
        ensures
            r matches Err(e) ==> res == FlowResult::<UiNodeResponse<LoginUiNode>>::Err(FlowError::Identity(e)),
            r matches Ok(resp) ==> (res matches Ok(out) && out.status_code == resp.status_code && out.headers@ == resp.headers@
                && match resp.ui_node {
                    None => out.ui_node is None,
                    Some(flow) => out.ui_node matches Some(o) && o.spec_action() == self.url_rewriter.rewrite_spec(
                        flow.spec_action(),
                    ) && flow.differs_only_in_action(&o),
                }),
    {
        form_flow_response(r, &self.url_rewriter)
    }

    /// The page after a submitted login form: as for `fetch_ui`.
    pub fn proxy_submit_ui(&self, r: IdentityResult<UiNodeResponse<LoginUiNode>>) -> (res: FlowResult<UiNodeResponse<LoginUiNode>>)
        ensures
            r matches Err(e) ==> res == FlowResult::<UiNodeResponse<LoginUiNode>>::Err(FlowError::Identity(e)),
            r matches Ok(resp) ==> (res matches Ok(out) && out.status_code == resp.status_code && out.headers@ == resp.headers@
                && match resp.ui_node {
                    None => out.ui_node is None,
                    Some(flow) => out.ui_node matches Some(o) && o.spec_action() == self.url_rewriter.rewrite_spec(
                        flow.spec_action(),
                    ) && flow.differs_only_in_action(&o),
                }),
    {
        form_flow_response(r, &self.url_rewriter)
    }

    /// A login challenge starts by reading its login request; without a
    /// `login_challenge` parameter the handler fails.
    pub fn fetch_action_start(&self, params: &Params) -> (step: LoginActionStep)
        ensures
            match lookup(params@, "login_challenge"@) {
                Some(c) => step matches LoginActionStep::GetLoginRequest { challenge } && challenge@ == c,
                None => step matches LoginActionStep::Done(Err(e)) && e matches FlowError::LoginChallenge(m)
                    && m@ == "Login challenge parameter not found. params=("@ + debug_params(params@) + ")"@,
            },
    {
        match params.get("login_challenge") {
            Some(challenge) => LoginActionStep::GetLoginRequest { challenge },
            None => {
                let d = params_debug(params);
                let m = concat3("Login challenge parameter not found. params=(", d.as_str(), ")");
                LoginActionStep::Done(Err(FlowError::LoginChallenge(m)))
            },
        }
    }

    /// Hydra's login request: when Hydra already knows the user (`skip`),
    /// the login is accepted for Hydra's subject (a missing subject fails);
    /// otherwise the browser's Kratos session is read.
    pub fn fetch_action_on_login_request(&self, challenge: String, r: OidcResult<LoginRequest>) -> (step: LoginActionStep)
        ensures
            r matches Err(e) ==> step == LoginActionStep::Done(Err(FlowError::Oidc(e))),
            r matches Ok(req) ==> (if req.skip {
                match req.subject {
                    Some(s) => step matches LoginActionStep::AcceptLogin { challenge: c, body } && c@ == challenge@
                        && is_remembered_login(body, s@),
                    None => step matches LoginActionStep::Done(Err(e)) && e matches FlowError::Subject(m)
                        && m@ == "Missing subject in login request despite skip=true. login_req=("@
                        + debug_login_request(req) + ")"@,
                }
            } else {
                step matches LoginActionStep::CheckSession { challenge: c } && c@ == challenge@
            }),
    {
        match r {
            Err(e) => LoginActionStep::Done(Err(FlowError::Oidc(e))),
            Ok(req) => {
                if req.skip {
                    match req.subject {
                        Some(s) => LoginActionStep::AcceptLogin { challenge, body: remembered_login(s) },
                        None => {
                            let d = login_request_debug(&req);
                            let m = concat3(
                                "Missing subject in login request despite skip=true. login_req=(",
                                d.as_str(),
                                ")",
                            );
                            LoginActionStep::Done(Err(FlowError::Subject(m)))
                        },
                    }
                } else {
                    LoginActionStep::CheckSession { challenge }
                }
            },
        }
    }

    /// The browser's session: with one, the login is accepted for the
    /// session's identity; without one (any error), the browser goes to the
    /// login page, keeping the challenge.
    pub fn fetch_action_on_session(&self, challenge: String, r: IdentityResult<KratosSession>) -> (step: LoginActionStep)
        ensures
            r matches Ok(s) ==> (step matches LoginActionStep::AcceptLogin { challenge: c, body } && c@ == challenge@
                && is_remembered_login(body, s.identity.id@)),
            r is Err ==> (step matches LoginActionStep::Done(res) && is_see_other(res, login_page_with_challenge(challenge@))),
            r is Err ==> (step matches LoginActionStep::Done(Ok(resp)) && resp.status_code == 303),
    {
        match r {
            Ok(session) => LoginActionStep::AcceptLogin { challenge, body: remembered_login(session.identity.id) },
            Err(_) => {
                let pair = single_pair("login_challenge", challenge.as_str());
                let encoded = urlencode_or_empty(&pair);
                let mut url = "/login?".to_owned();
                url.append(encoded.as_str());
                proof {
                    reveal_strlit("/login?");
                    assert forall|i: int| 0 <= i < url@.len() implies ' ' <= #[trigger] url@[i] && url@[i] <= '~' by {
                        if i >= 7 {
                            assert(url@[i] == encoded@[i - 7]);
                            assert(form_char(encoded@[i - 7]));
                        }
                    }
                    lemma_visible_text_is_header_value(url@);
                }
                LoginActionStep::Done(see_other(url.as_str()))
            },
        }
    }

    /// Hydra's answer to the accepted login: the browser goes where Hydra
    /// says.
    pub fn fetch_action_on_accept(&self, r: OidcResult<CompletedRequest>) -> (step: LoginActionStep)
        ensures
            r matches Err(e) ==> step == LoginActionStep::Done(Err(FlowError::Oidc(e))),
            r matches Ok(c) ==> (step matches LoginActionStep::Done(res) && is_see_other(res, c.redirect_to@)),
    {
        match r {
            Err(e) => LoginActionStep::Done(Err(FlowError::Oidc(e))),
            Ok(c) => LoginActionStep::Done(see_other(c.redirect_to.as_str())),
        }
    }
}

} // verus!
