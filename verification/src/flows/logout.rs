//! The logout flow: Hydra's logout challenge, or a direct Kratos logout.
use vstd::prelude::*;
use crate::params::{Params, lookup};
use crate::domain::{ActionResponse, CompletedRequest, KratosLogoutFlow};
use crate::errors::{FlowError, FlowResult, IdentityError, IdentityResult, OidcResult};
use crate::kratos::KratosService;
use crate::hydra::HydraService;
use crate::flows::common::{see_other, is_see_other};

verus! {

/// The logout handler: the identity and OIDC services.
pub struct LogoutFlowHandler {
    pub identity_service: KratosService,
    pub oidc_service: HydraService,
}

/// The next step of a logout.
pub enum LogoutStep {
    /// Accept Hydra's logout challenge.
    AcceptLogout { challenge: String },
    /// Create the Kratos logout flow, returning to `return_to` afterwards
    /// (the OIDC client's page after a Hydra logout).
    CreateLogoutFlow { return_to: Option<String> },
    /// The handler's answer.
    Done(FlowResult<ActionResponse>),
}

impl LogoutFlowHandler {
    pub fn new(identity_service: KratosService, oidc_service: HydraService) -> (h: Self)
        ensures
            h.identity_service == identity_service,
            h.oidc_service == oidc_service,
    {
        LogoutFlowHandler { identity_service, oidc_service }
    }

    /// A logout with a `logout_challenge` starts by accepting it at Hydra;
    /// any other logout creates the Kratos logout flow directly.
    pub fn fetch_action_start(&self, params: &Params) -> (step: LogoutStep)
        ensures
            match lookup(params@, "logout_challenge"@) {
                Some(c) => step matches LogoutStep::AcceptLogout { challenge } && challenge@ == c,
                None => step matches LogoutStep::CreateLogoutFlow { return_to } && return_to is None,
            },
    {
        match params.get("logout_challenge") {
            Some(challenge) => LogoutStep::AcceptLogout { challenge },
            None => LogoutStep::CreateLogoutFlow { return_to: None },
        }
    }

    /// Hydra's answer to the accepted logout: the Kratos logout flow is
    /// created to return to where Hydra says.
    pub fn fetch_action_on_accept(&self, r: OidcResult<CompletedRequest>) -> (step: LogoutStep)
        ensures
            r matches Err(e) ==> step == LogoutStep::Done(Err(FlowError::Oidc(e))),
            r matches Ok(c) ==> (step matches LogoutStep::CreateLogoutFlow { return_to } && return_to matches Some(rt)
                && rt@ == c.redirect_to@),
    {
        match r {
            Err(e) => LogoutStep::Done(Err(FlowError::Oidc(e))),
            Ok(c) => LogoutStep::CreateLogoutFlow { return_to: Some(c.redirect_to) },
        }
    }

    /// The Kratos logout flow created for `return_to` (the target of the
    /// `CreateLogoutFlow` step): the browser goes to its logout URL. In a
    /// direct logout (no Hydra challenge, so no `return_to`) a browser
    /// without a session goes to the login page instead; any other failure
    /// fails the handler.
    pub fn fetch_action_on_logout_flow(&self, return_to: Option<String>, r: IdentityResult<KratosLogoutFlow>) -> (step: LogoutStep)
        ensures
            r matches Ok(f) ==> (step matches LogoutStep::Done(res) && is_see_other(res, f.logout_url@)),
            r matches Err(e) ==> (if return_to is None && e is Unauthorized {
                step matches LogoutStep::Done(res) && is_see_other(res, "/login"@)
            } else {
                step == LogoutStep::Done(Err(FlowError::Identity(e)))
            }),
    {
        match r {
            Ok(flow) => LogoutStep::Done(see_other(flow.logout_url.as_str())),
            Err(e) => {
                let unauthorized = match &e {
                    IdentityError::Unauthorized(_) => true,
                    _ => false,
                };
                let via_hydra = return_to.is_some();
                if !via_hydra && unauthorized {
                    LogoutStep::Done(see_other("/login"))
                } else {
                    LogoutStep::Done(Err(FlowError::Identity(e)))
                }
            },
        }
    }
}

} // verus!
