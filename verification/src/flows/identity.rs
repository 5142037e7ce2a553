//! Reading and submitting Kratos self-service flows.
use vstd::prelude::*;
use crate::text::{concat2, concat3};
use crate::headers::{HeaderMap, HeaderValue, values_of, entries_for, lemma_known_header_names};
use crate::params::{Params, lookup};
use crate::status::{is_success, is_redirection, spec_is_success, spec_is_redirection, status_text, status_code_text, valid_status};
use crate::domain::{FlowType, flow_type_name, UiNodeResponse};
use crate::errors::{IdentityError, IdentityResult, FlowError, FlowResult};
use crate::url_rewrite::UrlRewriter;
use crate::flows::common::{rewrite_location_headers, spec_rewrite_location_headers};
use crate::flows::variants::FormFlow;

verus! {

/// What to do with Kratos' answer to a flow request.
pub enum IdentityAnswer {
    /// The request failed.
    Failed(IdentityError),
    /// Send the browser on with this status and these headers.
    Redirect { status_code: u16, headers: HeaderMap },
    /// Read the flow from the body; answer with this status and headers.
    ReadFlow { status_code: u16, headers: HeaderMap },
    /// Read the body as text: it goes into the error of a failed submission.
    ReadErrorBody { status_code: u16 },
}

/// The `set-cookie` entries of an answer.
pub open spec fn cookie_entries(answer: Seq<(Seq<char>, Seq<u8>)>) -> Seq<(Seq<char>, Seq<u8>)> {
    entries_for("set-cookie"@, values_of(answer, "set-cookie"@))
}

/// The headers of a redirect answer: its cookies, then its locations
/// rewritten for the browser.
pub open spec fn redirect_entries<R: UrlRewriter>(r: &R, answer: Seq<(Seq<char>, Seq<u8>)>) -> Seq<(Seq<char>, Seq<u8>)> {
    spec_rewrite_location_headers(
        r,
        cookie_entries(answer) + entries_for("location"@, values_of(answer, "location"@)),
    )
}

/// The answer after a non-failing status: a redirect (3xx) carries the
/// cookies and the rewritten locations; any other status has the flow read
/// from the body, with the cookies.
pub open spec fn passes<R: UrlRewriter>(r: &R, a: IdentityAnswer, status: u16, answer: Seq<(Seq<char>, Seq<u8>)>) -> bool {
    if spec_is_redirection(status) {
        a matches IdentityAnswer::Redirect { status_code, headers } && status_code == status
            && headers@ == redirect_entries(r, answer)
    } else {
        a matches IdentityAnswer::ReadFlow { status_code, headers } && status_code == status
            && headers@ == cookie_entries(answer)
    }
}

fn cookies_of(answer: &HeaderMap) -> (h: HeaderMap)
    ensures
        h@ == cookie_entries(answer@),
{
    let cookies = answer.get_all("set-cookie");
    let mut h = HeaderMap::new();
    proof {
        lemma_known_header_names();
    }
    h.append_all("set-cookie", &cookies);
    assert(h@ =~= cookie_entries(answer@));
    h
}

fn pass_answer<R: UrlRewriter>(status: u16, answer: &HeaderMap, url_rewriter: &R) -> (a: IdentityAnswer)
    ensures
        passes(url_rewriter, a, status, answer@),
{
    let mut headers = cookies_of(answer);
    if is_redirection(status) {
        let locations = answer.get_all("location");
        proof {
            lemma_known_header_names();
        }
        headers.append_all("location", &locations);
        let rewritten = rewrite_location_headers(url_rewriter, &headers);
        return IdentityAnswer::Redirect { status_code: status, headers: rewritten };
    }
    IdentityAnswer::ReadFlow { status_code: status, headers }
}

/// Kratos' answer to reading a flow: a 2xx status gives the flow, a 3xx
/// status sends the browser on unless a flow id was asked for, and any
/// other status fails.
pub fn handle_identity_fetch_flow<R: UrlRewriter>(
    flow_type: FlowType,
    params: &Params,
    status: u16,
    answer: &HeaderMap,
    url_rewriter: &R,
) -> (a: IdentityAnswer)
    requires
        valid_status(status),
    ensures
        (!(spec_is_success(status) || spec_is_redirection(status)) || (lookup(params@, "flow"@) is Some
            && spec_is_redirection(status))) ==> (a matches IdentityAnswer::Failed(e) && e matches IdentityError::RetrieveRequest(m)
            && m@ == "Failed to get "@ + flow_type_name(flow_type) + " flow: "@ + status_code_text(status)),
        !(!(spec_is_success(status) || spec_is_redirection(status)) || (lookup(params@, "flow"@) is Some
            && spec_is_redirection(status))) ==> passes(url_rewriter, a, status, answer@),
{
    let redirect = is_redirection(status);
    if !(is_success(status) || redirect) || (params.get("flow").is_some() && redirect) {
        let text = status_text(status);
        let msg = concat3("Failed to get ", flow_type.name(), " flow: ");
        let msg = concat2(msg.as_str(), text.as_str());
        return IdentityAnswer::Failed(IdentityError::RetrieveRequest(msg));
    }
    pass_answer(status, answer, url_rewriter)
}

/// Kratos' answer to a submitted form: 2xx and 400 (the form with its
/// errors) give the flow, 3xx sends the browser on, and any other status
/// has its body read for the error.
pub fn handle_identity_submit_flow<R: UrlRewriter>(status: u16, answer: &HeaderMap, url_rewriter: &R) -> (a: IdentityAnswer)
    ensures
        !(spec_is_success(status) || status == 400 || spec_is_redirection(status)) ==> (a matches IdentityAnswer::ReadErrorBody {
            status_code,
        } && status_code == status),
        (spec_is_success(status) || status == 400 || spec_is_redirection(status)) ==> passes(url_rewriter, a, status, answer@),
{
    if !(is_success(status) || status == 400 || is_redirection(status)) {
        return IdentityAnswer::ReadErrorBody { status_code: status };
    }
    pass_answer(status, answer, url_rewriter)
}

/// The error of a failed submission, once its body was read (or could not
/// be read).
pub fn identity_submit_on_error_body(flow_type: FlowType, status: u16, body: Result<String, String>) -> (e: IdentityError)
    requires
        valid_status(status),
    ensures
        body matches Ok(text) ==> (e matches IdentityError::PostFlow(m) && m@ == "Form submission failed. flow=("@
            + flow_type_name(flow_type) + "), status=("@ + status_code_text(status) + "), , body=("@ + text@ + ")"@),
        body matches Err(msg) ==> (e matches IdentityError::HttpClient(m) && m@ == msg@),
{
    match body {
        Ok(text) => {
            let mut m = concat3("Form submission failed. flow=(", flow_type.name(), "), status=(");
            m.append(status_text(status).as_str());
            m.append("), , body=(");
            m.append(text.as_str());
            m.append(")");
            IdentityError::PostFlow(m)
        },
        Err(msg) => IdentityError::HttpClient(msg),
    }
}

/// The flow read from the body of an answer (or the error of reading it).
pub fn identity_on_flow_body<F>(status: u16, headers: HeaderMap, parsed: Result<F, String>) -> (r: IdentityResult<UiNodeResponse<F>>)
    ensures
        parsed matches Err(msg) ==> (r matches Err(e) && e matches IdentityError::HttpClient(m) && m@ == msg@),
        parsed matches Ok(flow) ==> (r matches Ok(resp) && resp.ui_node == Some(flow) && resp.status_code == status
            && resp.headers@ == headers@),
{
    match parsed {
        Ok(flow) => Ok(UiNodeResponse { ui_node: Some(flow), status_code: status, headers }),
        Err(msg) => Err(IdentityError::HttpClient(msg)),
    }
}

/// The response of a flow handler from the answer of the identity service:
/// its error becomes a flow error, and the form of the flow (if any) posts
/// to the rewritten action.
pub fn form_flow_response<F: FormFlow, R: UrlRewriter>(r: IdentityResult<UiNodeResponse<F>>, url_rewriter: &R) -> (res: FlowResult<UiNodeResponse<F>>)
    ensures
        r matches Err(e) ==> res == FlowResult::<UiNodeResponse<F>>::Err(FlowError::Identity(e)),
        r matches Ok(resp) ==> (res matches Ok(out) && out.status_code == resp.status_code && out.headers@ == resp.headers@
            && match resp.ui_node {
                None => out.ui_node is None,
                Some(flow) => out.ui_node matches Some(o) && o.spec_action() == url_rewriter.rewrite_spec(
                    flow.spec_action(),
                ) && flow.differs_only_in_action(&o),
            }),
{
    match r {
        Err(e) => Err(FlowError::Identity(e)),
        Ok(resp) => {
            let UiNodeResponse { ui_node, status_code, headers } = resp;
            match ui_node {
                None => Ok(UiNodeResponse { ui_node: None, status_code, headers }),
                Some(flow) => {
                    let action = url_rewriter.rewrite(flow.action());
                    let flow = flow.set_action(action);
                    Ok(UiNodeResponse { ui_node: Some(flow), status_code, headers })
                },
            }
        },
    }
}

} // verus!
