//! The direct OAuth2 routes: Hydra's login and consent challenges answered
//! through `HydraClient` and `KratosClient`.
use vstd::prelude::*;
use crate::text::same_text;
use crate::params::{Params, lookup};
use crate::form::{urlencode_or_empty, single_pair};
use crate::domain::{
    AcceptConsentRequest, AcceptLoginRequest, CompletedRequest, ConsentRequestSession, ConsentUiNode, KratosSession,
    LoginRequest, RejectRequest, SessionClaims,
};
use crate::errors::{AppError, AppResult};
use crate::direct::RouteResponse;
use crate::flows::login::{is_remembered_login, login_page_with_challenge};
use crate::flows::consent::{is_denial, is_remembered_consent};

verus! {

/// The consent form as the browser submits it to the direct route.
pub struct ConsentForm {
    pub consent_challenge: String,
    pub submit: String,
    pub grant_scope: Option<Vec<String>>,
}

/// A 303 redirect to `location`.
pub open spec fn is_see_other_route(r: AppResult<RouteResponse>, location: Seq<char>) -> bool {
    r matches Ok(RouteResponse::SeeOther { location: l }) && l@ == location
}

/// The next step of the direct login-challenge route.
pub enum OAuth2LoginStep {
    GetLoginRequest { challenge: String },
    CheckSession { challenge: String },
    AcceptLogin { challenge: String, body: AcceptLoginRequest },
    Done(AppResult<RouteResponse>),
}

/// The next step of the direct consent-challenge route.
pub enum OAuth2ConsentStep {
    GetConsentRequest { challenge: String },
    AcceptConsent { challenge: String, body: AcceptConsentRequest },
    Done(AppResult<RouteResponse>),
}

/// The next step of the direct consent-submission route.
pub enum OAuth2ConsentSubmitStep {
    CheckSession { challenge: String, grant_scope: Vec<String> },
    AcceptConsent { challenge: String, body: AcceptConsentRequest },
    RejectConsent { challenge: String, rejection: RejectRequest },
    Done(AppResult<RouteResponse>),
}

fn remembered_login(subject: String) -> (body: AcceptLoginRequest)
    ensures
        is_remembered_login(body, subject@),
{
    AcceptLoginRequest { subject, remember: Some(true), remember_for: Some(3600), acr: None, context: None }
}

fn hydra_error(msg: &str) -> (e: AppError)
    ensures
        e matches AppError::Hydra(m) && m@ == msg@,
{
    AppError::Hydra(msg.to_owned())
}

/// The login challenge route starts by reading the login request; without a
/// `login_challenge` parameter it fails.
pub fn oauth2_login_start(params: &Params) -> (step: OAuth2LoginStep)
    ensures
        match lookup(params@, "login_challenge"@) {
            Some(c) => step matches OAuth2LoginStep::GetLoginRequest { challenge } && challenge@ == c,
            None => step matches OAuth2LoginStep::Done(Err(e)) && e matches AppError::Hydra(m)
                && m@ == "Missing login_challenge parameter"@,
        },
{
    match params.get("login_challenge") {
        Some(challenge) => OAuth2LoginStep::GetLoginRequest { challenge },
        None => OAuth2LoginStep::Done(Err(hydra_error("Missing login_challenge parameter"))),
    }
}

/// Hydra's login request: a skipped login is accepted for Hydra's subject
/// (a missing subject fails); otherwise the session is read.
pub fn oauth2_login_on_login_request(challenge: String, r: AppResult<LoginRequest>) -> (step: OAuth2LoginStep)
    ensures
        r matches Err(e) ==> step == OAuth2LoginStep::Done(Err(e)),
        r matches Ok(req) ==> (if req.skip {
            match req.subject {
                Some(s) => step matches OAuth2LoginStep::AcceptLogin { challenge: c, body } && c@ == challenge@
                    && is_remembered_login(body, s@),
                None => step matches OAuth2LoginStep::Done(Err(e)) && e matches AppError::Hydra(m)
                    && m@ == "Missing subject in login request despite skip=true"@,
            }
        } else {
            step matches OAuth2LoginStep::CheckSession { challenge: c } && c@ == challenge@
        }),
{
    match r {
        Err(e) => OAuth2LoginStep::Done(Err(e)),
        Ok(req) => {
            if req.skip {
                match req.subject {
                    Some(s) => OAuth2LoginStep::AcceptLogin { challenge, body: remembered_login(s) },
                    None => OAuth2LoginStep::Done(Err(hydra_error("Missing subject in login request despite skip=true"))),
                }
            } else {
                OAuth2LoginStep::CheckSession { challenge }
            }
        },
    }
}

/// The session: accepted for its identity, or the login page keeping the
/// challenge when there is none.
pub fn oauth2_login_on_session(challenge: String, r: AppResult<KratosSession>) -> (step: OAuth2LoginStep)
    ensures
        r matches Ok(s) ==> (step matches OAuth2LoginStep::AcceptLogin { challenge: c, body } && c@ == challenge@
            && is_remembered_login(body, s.identity.id@)),
        r is Err ==> (step matches OAuth2LoginStep::Done(res) && is_see_other_route(res, login_page_with_challenge(challenge@))),
{
    match r {
        Ok(session) => OAuth2LoginStep::AcceptLogin { challenge, body: remembered_login(session.identity.id) },
        Err(_) => {
            let pair = single_pair("login_challenge", challenge.as_str());
            let encoded = urlencode_or_empty(&pair);
            let mut location = "/login?".to_owned();
            location.append(encoded.as_str());
            OAuth2LoginStep::Done(Ok(RouteResponse::SeeOther { location }))
        },
    }
}

/// Hydra's answer to the accepted login: the browser goes where Hydra says.
pub fn oauth2_login_on_accept(r: AppResult<CompletedRequest>) -> (step: OAuth2LoginStep)
    ensures
        r matches Err(e) ==> step == OAuth2LoginStep::Done(Err(e)),
        r matches Ok(c) ==> (step matches OAuth2LoginStep::Done(res) && is_see_other_route(res, c.redirect_to@)),
{
    match r {
        Err(e) => OAuth2LoginStep::Done(Err(e)),
        Ok(c) => OAuth2LoginStep::Done(Ok(RouteResponse::SeeOther { location: c.redirect_to })),
    }
}

/// The consent challenge route starts by reading the consent request;
/// without a `consent_challenge` parameter it fails.
pub fn oauth2_consent_start(params: &Params) -> (step: OAuth2ConsentStep)
    ensures
        match lookup(params@, "consent_challenge"@) {
            Some(c) => step matches OAuth2ConsentStep::GetConsentRequest { challenge } && challenge@ == c,
            None => step matches OAuth2ConsentStep::Done(Err(e)) && e matches AppError::Hydra(m)
                && m@ == "Missing consent_challenge parameter"@,
        },
{
    match params.get("consent_challenge") {
        Some(challenge) => OAuth2ConsentStep::GetConsentRequest { challenge },
        None => OAuth2ConsentStep::Done(Err(hydra_error("Missing consent_challenge parameter"))),
    }
}

/// Hydra's consent request: a skipped consent is accepted at once with the
/// requested scopes and audience and no session claims; otherwise the
/// consent page shows the request.
pub fn oauth2_consent_on_consent_request(challenge: String, r: AppResult<ConsentUiNode>) -> (step: OAuth2ConsentStep)
    ensures
        r matches Err(e) ==> step == OAuth2ConsentStep::Done(Err(e)),
        r matches Ok(req) ==> (if req.skip == Some(true) {
            step matches OAuth2ConsentStep::AcceptConsent { challenge: c, body } && c@ == challenge@
                && body.grant_scope@ == req.requested_scope@ && body.grant_access_token_audience
                == req.requested_access_token_audience && body.remember == Some(true) && body.remember_for == Some(
                3600i64,
            ) && body.session is None
        } else {
            step matches OAuth2ConsentStep::Done(Ok(RouteResponse::ConsentPage { request })) && request == req
        }),
{
    match r {
        Err(e) => OAuth2ConsentStep::Done(Err(e)),
        Ok(req) => {
            let skip = match req.skip {
                Some(b) => b,
                None => false,
            };
            if skip {
                let body = AcceptConsentRequest {
                    grant_scope: req.requested_scope,
                    grant_access_token_audience: req.requested_access_token_audience,
                    remember: Some(true),
                    remember_for: Some(3600),
                    session: None,
                };
                OAuth2ConsentStep::AcceptConsent { challenge, body }
            } else {
                OAuth2ConsentStep::Done(Ok(RouteResponse::ConsentPage { request: req }))
            }
        },
    }
}

/// Hydra's answer to the accepted consent: the browser goes where Hydra says.
pub fn oauth2_consent_on_accept(r: AppResult<CompletedRequest>) -> (step: OAuth2ConsentStep)
    ensures
        r matches Err(e) ==> step == OAuth2ConsentStep::Done(Err(e)),
        r matches Ok(c) ==> (step matches OAuth2ConsentStep::Done(res) && is_see_other_route(res, c.redirect_to@)),
{
    match r {
        Err(e) => OAuth2ConsentStep::Done(Err(e)),
        Ok(c) => OAuth2ConsentStep::Done(Ok(RouteResponse::SeeOther { location: c.redirect_to })),
    }
}

/// A submitted consent: "accept" grants the submitted scopes once the
/// session is read; anything else rejects the consent as denied.
pub fn oauth2_consent_submit_start(form: ConsentForm) -> (step: OAuth2ConsentSubmitStep)
    ensures
        form.submit@ == "accept"@ ==> (step matches OAuth2ConsentSubmitStep::CheckSession { challenge, grant_scope }
            && challenge@ == form.consent_challenge@ && grant_scope@ == match form.grant_scope {
            Some(v) => v@,
            None => Seq::<String>::empty(),
        }),
        form.submit@ != "accept"@ ==> (step matches OAuth2ConsentSubmitStep::RejectConsent { challenge, rejection }
            && challenge@ == form.consent_challenge@ && is_denial(rejection)),
{
    if same_text(form.submit.as_str(), "accept") {
        let grant_scope = match form.grant_scope {
            Some(v) => v,
            None => Vec::new(),
        };
        OAuth2ConsentSubmitStep::CheckSession { challenge: form.consent_challenge, grant_scope }
    } else {
        let body = RejectRequest {
            error: "consent_denied".to_owned(),
            error_description: Some("The user denied the consent request.".to_owned()),
            error_uri: None,
            status_code: Some(403),
        };
        OAuth2ConsentSubmitStep::RejectConsent { challenge: form.consent_challenge, rejection: body }
    }
}

/// The session of an accepted consent: without one the route answers
/// Unauthorized; with one, the consent is accepted with the session's
/// claims.
pub fn oauth2_consent_submit_on_session(challenge: String, grant_scope: Vec<String>, r: AppResult<KratosSession>) -> (step: OAuth2ConsentSubmitStep)
    ensures
        r is Err ==> (step matches OAuth2ConsentSubmitStep::Done(Err(e)) && e matches AppError::Unauthorized(m)
            && m@ == "No active Kratos session found during consent"@),
        r matches Ok(s) ==> (step matches OAuth2ConsentSubmitStep::AcceptConsent { challenge: c, body } && c@ == challenge@
            && is_remembered_consent(body, grant_scope@, None, s)),
{
    match r {
        Err(_) => OAuth2ConsentSubmitStep::Done(
            Err(AppError::Unauthorized("No active Kratos session found during consent".to_owned())),
        ),
        Ok(s) => {
            let email = match &s.identity.email {
                Some(e) => e.clone(),
                None => String::new(),
            };
            let claims = SessionClaims { sub: s.identity.id.clone(), email };
            let body = AcceptConsentRequest {
                grant_scope,
                grant_access_token_audience: None,
                remember: Some(true),
                remember_for: Some(3600),
                session: Some(ConsentRequestSession { id_token: Some(claims), access_token: None }),
            };
            OAuth2ConsentSubmitStep::AcceptConsent { challenge, body }
        },
    }
}

/// Hydra's answer to the accepted or rejected consent: the browser goes
/// where Hydra says.
pub fn oauth2_consent_submit_on_completed(r: AppResult<CompletedRequest>) -> (step: OAuth2ConsentSubmitStep)
    ensures
        r matches Err(e) ==> step == OAuth2ConsentSubmitStep::Done(Err(e)),
        r matches Ok(c) ==> (step matches OAuth2ConsentSubmitStep::Done(res) && is_see_other_route(res, c.redirect_to@)),
{
    match r {
        Err(e) => OAuth2ConsentSubmitStep::Done(Err(e)),
        Ok(c) => OAuth2ConsentSubmitStep::Done(Ok(RouteResponse::SeeOther { location: c.redirect_to })),
    }
}

} // verus!
