//! The consent flow: Hydra's consent challenge and the submitted consent.
use vstd::prelude::*;
use crate::text::{concat3, same_text};
use crate::headers::HeaderMap;
use crate::params::{Params, lookup};
use crate::domain::{
    ActionResponse, AcceptConsentRequest, CompletedRequest, ConsentRequestSession, ConsentSubmitNode, ConsentUiNode,
    KratosSession, RejectRequest, SessionClaims, UiNodeResponse,
};
use crate::errors::{FlowError, FlowResult, IdentityResult, OidcResult};
use crate::kratos::KratosService;
use crate::hydra::HydraService;
use crate::flows::common::{see_other, is_see_other, params_debug, debug_params};

verus! {

/// The consent handler: the identity and OIDC services.
pub struct ConsentFlowHandler {
    pub identity_service: KratosService,
    pub oidc_service: HydraService,
}

/// The next step of a consent challenge.
pub enum ConsentFetchStep {
    /// Read the consent request of the challenge from Hydra.
    GetConsentRequest { challenge: String },
    /// Read the browser's Kratos session, to accept the skipped consent.
    CheckSession { challenge: String, request: ConsentUiNode },
    /// Accept the consent request with this body.
    AcceptConsent { challenge: String, body: AcceptConsentRequest },
    /// The handler's answer.
    Done(FlowResult<UiNodeResponse<ConsentUiNode>>),
}

/// The next step of a submitted consent.
pub enum ConsentSubmitStep {
    /// Read the browser's Kratos session, to accept with these scopes.
    CheckSession { challenge: String, grant_scope: Vec<String> },
    /// Accept the consent request with this body.
    AcceptConsent { challenge: String, body: AcceptConsentRequest },
    /// Reject the consent request with this body.
    RejectConsent { challenge: String, rejection: RejectRequest },
    /// The handler's answer.
    Done(FlowResult<ActionResponse>),
}

/// The email trait of a session, or the empty text.
pub open spec fn session_email(s: KratosSession) -> Seq<char> {
    match s.identity.email {
        Some(e) => e@,
        None => Seq::empty(),
    }
}

/// The token session of an accepted consent: an ID token naming the
/// session's identity and email, and no access token claims.
pub open spec fn is_session_claims(session: Option<ConsentRequestSession>, s: KratosSession) -> bool {
    match session {
        Some(cs) => cs.access_token is None && match cs.id_token {
            Some(c) => c.sub@ == s.identity.id@ && c.email@ == session_email(s),
            None => false,
        },
        None => false,
    }
}

/// An accepted consent granting `scope` to `audience`, remembered for an
/// hour, with the session's claims.
pub open spec fn is_remembered_consent(
    body: AcceptConsentRequest,
    scope: Seq<String>,
    audience: Option<Vec<String>>,
    s: KratosSession,
) -> bool {
    &&& body.grant_scope@ == scope
    &&& body.grant_access_token_audience == audience
    &&& body.remember == Some(true)
    &&& body.remember_for == Some(3600i64)
    &&& is_session_claims(body.session, s)
}

/// The rejection sent when the user denies consent.
pub open spec fn is_denial(body: RejectRequest) -> bool {
    &&& body.error@ == "consent_denied"@
    &&& (body.error_description matches Some(d) && d@ == "The user denied the consent request."@)
    &&& body.error_uri is None
    &&& body.status_code == Some(403i64)
}

fn session_claims(s: &KratosSession) -> (session: Option<ConsentRequestSession>)
    ensures
        is_session_claims(session, *s),
{
    let email = match &s.identity.email {
        Some(e) => e.clone(),
        None => String::new(),
    };
    let claims = SessionClaims { sub: s.identity.id.clone(), email };
    Some(ConsentRequestSession { id_token: Some(claims), access_token: None })
}

fn denial() -> (body: RejectRequest)
    ensures
        is_denial(body),
{
    RejectRequest {
        error: "consent_denied".to_owned(),
        error_description: Some("The user denied the consent request.".to_owned()),
        error_uri: None,
        status_code: Some(403),
    }
}

/// The 303 page response that redirects the browser to `location`, or the
/// header-value error.
pub open spec fn is_see_other_page(r: FlowResult<UiNodeResponse<ConsentUiNode>>, location: Seq<char>) -> bool {
    match crate::flows::common::redirect_headers(location) {
        Some(h) => r matches Ok(resp) && resp.ui_node is None && resp.status_code == 303 && resp.headers@ == h,
        None => r matches Err(e) && e is HeaderValueParse,
    }
}

impl ConsentFlowHandler {
    pub fn new(identity_service: KratosService, oidc_service: HydraService) -> (h: Self)
        ensures
            h.identity_service == identity_service,
            h.oidc_service == oidc_service,
    {
        ConsentFlowHandler { identity_service, oidc_service }
    }

    /// A consent challenge starts by reading its consent request; without a
    /// `consent_challenge` parameter the handler fails.
    pub fn fetch_ui_start(&self, params: &Params) -> (step: ConsentFetchStep)
        ensures
            match lookup(params@, "consent_challenge"@) {
                Some(c) => step matches ConsentFetchStep::GetConsentRequest { challenge } && challenge@ == c,
                None => step matches ConsentFetchStep::Done(Err(e)) && e matches FlowError::ConsentChallenge(m)
                    && m@ == "Consent challenge parameter not found. params=("@ + debug_params(params@) + ")"@,
            },
    {
        match params.get("consent_challenge") {
            Some(challenge) => ConsentFetchStep::GetConsentRequest { challenge },
            None => {
                let d = params_debug(params);
                let m = concat3("Consent challenge parameter not found. params=(", d.as_str(), ")");
                ConsentFetchStep::Done(Err(FlowError::ConsentChallenge(m)))
            },
        }
    }

    /// Hydra's consent request: a skipped consent is accepted with the
    /// session's claims, so the session is read first; otherwise the consent
    /// page shows the request.
    pub fn fetch_ui_on_consent_request(&self, challenge: String, r: OidcResult<ConsentUiNode>) -> (step: ConsentFetchStep)
        ensures
            r matches Err(e) ==> step == ConsentFetchStep::Done(Err(FlowError::Oidc(e))),
            r matches Ok(req) ==> (if req.skip == Some(true) {
                step matches ConsentFetchStep::CheckSession { challenge: c, request } && c@ == challenge@ && request == req
            } else {
                step matches ConsentFetchStep::Done(Ok(resp)) && resp.ui_node == Some(req) && resp.status_code == 200
                    && resp.headers@.len() == 0
            }),
    {
        match r {
            Err(e) => ConsentFetchStep::Done(Err(FlowError::Oidc(e))),
            Ok(req) => {
                let skip = match req.skip {
                    Some(b) => b,
                    None => false,
                };
                if skip {
                    ConsentFetchStep::CheckSession { challenge, request: req }
                } else {
                    ConsentFetchStep::Done(Ok(UiNodeResponse { ui_node: Some(req), status_code: 200, headers: HeaderMap::new() }))
                }
            },
        }
    }

    /// The session for a skipped consent: the consent is accepted with the
    /// requested scopes and audience and the session's claims; without a
    /// session the handler fails.
    pub fn fetch_ui_on_session(&self, challenge: String, request: ConsentUiNode, r: IdentityResult<KratosSession>) -> (step: ConsentFetchStep)
        ensures
            r matches Err(e) ==> step == ConsentFetchStep::Done(Err(FlowError::Identity(e))),
            r matches Ok(s) ==> (step matches ConsentFetchStep::AcceptConsent { challenge: c, body } && c@ == challenge@
                && is_remembered_consent(body, request.requested_scope@, request.requested_access_token_audience, s)),
    {
        match r {
            Err(e) => ConsentFetchStep::Done(Err(FlowError::Identity(e))),
            Ok(s) => {
                let session = session_claims(&s);
                let body = AcceptConsentRequest {
                    grant_scope: request.requested_scope,
                    grant_access_token_audience: request.requested_access_token_audience,
                    remember: Some(true),
                    remember_for: Some(3600),
                    session,
                };
                ConsentFetchStep::AcceptConsent { challenge, body }
            },
        }
    }

    /// Hydra's answer to the accepted consent: the browser goes where Hydra
    /// says.
    pub fn fetch_ui_on_accept(&self, r: OidcResult<CompletedRequest>) -> (step: ConsentFetchStep)
        ensures
            r matches Err(e) ==> step == ConsentFetchStep::Done(Err(FlowError::Oidc(e))),
            r matches Ok(c) ==> (step matches ConsentFetchStep::Done(res) && is_see_other_page(res, c.redirect_to@)),
    {
        match r {
            Err(e) => ConsentFetchStep::Done(Err(FlowError::Oidc(e))),
            Ok(c) => {
                let res = match see_other(c.redirect_to.as_str()) {
                    Ok(a) => Ok(UiNodeResponse { ui_node: None, status_code: a.status_code, headers: a.headers }),
                    Err(e) => Err(e),
                };
                ConsentFetchStep::Done(res)
            },
        }
    }

    /// A submitted consent: "accept" grants the submitted scopes (none when
    /// absent) once the session is read; anything else rejects the consent
    /// as denied by the user.
    pub fn submit_action_start(&self, submit: ConsentSubmitNode) -> (step: ConsentSubmitStep)
        ensures
            submit.submit@ == "accept"@ ==> (step matches ConsentSubmitStep::CheckSession { challenge, grant_scope }
                && challenge@ == submit.consent_challenge@ && grant_scope@ == match submit.grant_scope {
                Some(v) => v@,
                None => Seq::<String>::empty(),
            }),
            submit.submit@ != "accept"@ ==> (step matches ConsentSubmitStep::RejectConsent { challenge, rejection }
                && challenge@ == submit.consent_challenge@ && is_denial(rejection)),
    {
        if same_text(submit.submit.as_str(), "accept") {
            let grant_scope = match submit.grant_scope {
                Some(v) => v,
                None => Vec::new(),
            };
            ConsentSubmitStep::CheckSession { challenge: submit.consent_challenge, grant_scope }
        } else {
            ConsentSubmitStep::RejectConsent { challenge: submit.consent_challenge, rejection: denial() }
        }
    }

    /// The session for an accepted consent: the consent is accepted with the
    /// granted scopes, no audience and the session's claims; without a
    /// session the handler fails.
    pub fn submit_action_on_session(&self, challenge: String, grant_scope: Vec<String>, r: IdentityResult<KratosSession>) -> (step: ConsentSubmitStep)
        ensures
            r matches Err(e) ==> step == ConsentSubmitStep::Done(Err(FlowError::Identity(e))),
            r matches Ok(s) ==> (step matches ConsentSubmitStep::AcceptConsent { challenge: c, body } && c@ == challenge@
                && is_remembered_consent(body, grant_scope@, None, s)),
    {
        match r {
            Err(e) => ConsentSubmitStep::Done(Err(FlowError::Identity(e))),
            Ok(s) => {
                let session = session_claims(&s);
                let body = AcceptConsentRequest {
                    grant_scope,
                    grant_access_token_audience: None,
                    remember: Some(true),
                    remember_for: Some(3600),
                    session,
                };
                ConsentSubmitStep::AcceptConsent { challenge, body }
            },
        }
    }

    /// Hydra's answer to the accepted or rejected consent: the browser goes
    /// where Hydra says.
    pub fn submit_action_on_completed(&self, r: OidcResult<CompletedRequest>) -> (step: ConsentSubmitStep)
        ensures
            r matches Err(e) ==> step == ConsentSubmitStep::Done(Err(FlowError::Oidc(e))),
            r matches Ok(c) ==> (step matches ConsentSubmitStep::Done(res) && is_see_other(res, c.redirect_to@)),
    {
        match r {
            Err(e) => ConsentSubmitStep::Done(Err(FlowError::Oidc(e))),
            Ok(c) => ConsentSubmitStep::Done(see_other(c.redirect_to.as_str())),
        }
    }
}

} // verus!
