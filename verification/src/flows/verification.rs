//! The verification flow: the Kratos verification form.
use vstd::prelude::*;
use crate::domain::{UiNodeResponse, VerificationUiNode};
use crate::errors::{FlowError, FlowResult, IdentityResult};
use crate::kratos::KratosService;
use crate::url_rewrite::UrlRewriter;
use crate::flows::identity::form_flow_response;
use crate::flows::variants::FormFlow;

verus! {

/// The verification handler: the identity service and the URL rewriter.
pub struct VerificationFlowHandler<R: UrlRewriter> {
    pub identity_service: KratosService,
    pub url_rewriter: R,
}

impl<R: UrlRewriter> VerificationFlowHandler<R> {
    pub fn new(identity_service: KratosService, url_rewriter: R) -> (h: Self)
        ensures
            h.identity_service == identity_service,
            h.url_rewriter == url_rewriter,
    {
        VerificationFlowHandler { identity_service, url_rewriter }
    }

    /// The verification page: the identity service's answer, with the form
    /// posting to the rewritten action.
    pub fn fetch_ui(&self, r: IdentityResult<UiNodeResponse<VerificationUiNode>>) -> (res: FlowResult<UiNodeResponse<VerificationUiNode>>)
        ensures
            r matches Err(e) ==> res == FlowResult::<UiNodeResponse<VerificationUiNode>>::Err(FlowError::Identity(e)),
            r matches Ok(resp) ==> (res matches Ok(out) && out.status_code == resp.status_code && out.headers@ == resp.headers@
                && match resp.ui_node {
                    None => out.ui_node is None,
                    Some(flow) => out.ui_node matches Some(o) && o.spec_action() == self.url_rewriter.rewrite_spec(
                        flow.spec_action(),
                    ) && flow.differs_only_in_action(&o),
                }),
    {
        form_flow_response(r, &self.url_rewriter)
    }

    /// The page after a submitted verification form: as for `fetch_ui`.
    pub fn proxy_submit_ui(&self, r: IdentityResult<UiNodeResponse<VerificationUiNode>>) -> (res: FlowResult<UiNodeResponse<VerificationUiNode>>)
        ensures
            r matches Err(e) ==> res == FlowResult::<UiNodeResponse<VerificationUiNode>>::Err(FlowError::Identity(e)),
            r matches Ok(resp) ==> (res matches Ok(out) && out.status_code == resp.status_code && out.headers@ == resp.headers@
                && match resp.ui_node {
                    None => out.ui_node is None,
                    Some(flow) => out.ui_node matches Some(o) && o.spec_action() == self.url_rewriter.rewrite_spec(
                        flow.spec_action(),
                    ) && flow.differs_only_in_action(&o),
                }),
    {
        form_flow_response(r, &self.url_rewriter)
    }
}

} // verus!
