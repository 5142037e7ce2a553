use ory_selfservice_rust::domain::{CompletedRequest, ConsentSubmitNode, ConsentUiNode, FlowType, KratosErrorContainer, KratosErrorDetail, KratosIdentity, KratosLogoutFlow, KratosSession, LoginRequest, OAuth2Client};
use ory_selfservice_rust::errors::{FlowError, IdentityError, OidcError};
use ory_selfservice_rust::flows::consent::{ConsentFetchStep, ConsentFlowHandler, ConsentSubmitStep};
use ory_selfservice_rust::flows::error::{error_title, ErrorFlowHandler, ErrorStep};
use ory_selfservice_rust::flows::identity::{handle_identity_fetch_flow, handle_identity_submit_flow, identity_submit_on_error_body, IdentityAnswer};
use ory_selfservice_rust::flows::login::{LoginActionStep, LoginFlowHandler};
use ory_selfservice_rust::flows::logout::{LogoutFlowHandler, LogoutStep};
use ory_selfservice_rust::headers::{HeaderMap, HeaderValue};
use ory_selfservice_rust::hydra::HydraService;
use ory_selfservice_rust::kratos::KratosService;
use ory_selfservice_rust::params::Params;
use ory_selfservice_rust::urls::app_in_the_middle;
use ory_selfservice_rust::url_rewrite::AppInTheMiddle;

fn params(pairs: &[(&str, &str)]) -> Params {
    let mut p = Params::new();
    for (k, v) in pairs {
        p.insert(k.to_string(), v.to_string());
    }
    p
}

fn location(h: &HeaderMap) -> String {
    h.get("location").unwrap().to_str().unwrap()
}

fn rewriter() -> AppInTheMiddle {
    app_in_the_middle("http://localhost:3000", "http://kratos:4433").unwrap()
}

fn login_handler() -> LoginFlowHandler<AppInTheMiddle> {
    LoginFlowHandler::new(KratosService::new("http://kratos:4433".into()), HydraService::new("http://hydra:4445".into()), rewriter())
}

fn client() -> OAuth2Client {
    OAuth2Client { client_id: "cid".into(), client_name: None, logo_uri: None, policy_uri: None, tos_uri: None }
}

fn session(id: &str, email: Option<&str>) -> KratosSession {
    KratosSession {
        id: "s".into(),
        active: true,
        expires_at: String::new(),
        authenticated_at: String::new(),
        identity: KratosIdentity { id: id.into(), email: email.map(|e| e.to_string()) },
    }
}

fn login_request(skip: bool, subject: Option<&str>) -> LoginRequest {
    LoginRequest {
        challenge: "ch".into(),
        subject: subject.map(|s| s.to_string()),
        skip,
        client: client(),
        request_url: "http://rp".into(),
        oidc_context: None,
    }
}

#[test]
fn login_challenge_missing() {
    let h = login_handler();
    match h.fetch_action_start(&params(&[("a", "b")])) {
        LoginActionStep::Done(Err(FlowError::LoginChallenge(m))) => {
            assert_eq!(m, "Login challenge parameter not found. params=({\"a\": \"b\"})")
        }
        _ => panic!("expected a challenge error"),
    }
}

#[test]
fn login_challenge_skip_accepts_remembered_subject() {
    let h = login_handler();
    let step = h.fetch_action_start(&params(&[("login_challenge", "ch")]));
    let challenge = match step {
        LoginActionStep::GetLoginRequest { challenge } => challenge,
        _ => panic!(),
    };
    match h.fetch_action_on_login_request(challenge.clone(), Ok(login_request(true, Some("user-1")))) {
        LoginActionStep::AcceptLogin { challenge: c, body } => {
            assert_eq!(c, "ch");
            assert_eq!(body.subject, "user-1");
            assert_eq!(body.remember, Some(true));
            assert_eq!(body.remember_for, Some(3600));
        }
        _ => panic!(),
    }
    match h.fetch_action_on_login_request(challenge, Ok(login_request(true, None))) {
        LoginActionStep::Done(Err(FlowError::Subject(m))) => assert!(m.starts_with(
            "Missing subject in login request despite skip=true. login_req=(LoginRequest { challenge: \"ch\", subject: None, skip: true,"
        )),
        _ => panic!(),
    }
}

#[test]
fn login_challenge_without_session_goes_to_login_page() {
    let h = login_handler();
    match h.fetch_action_on_login_request("ch".into(), Ok(login_request(false, None))) {
        LoginActionStep::CheckSession { challenge } => assert_eq!(challenge, "ch"),
        _ => panic!(),
    }
    match h.fetch_action_on_session("a b".into(), Err(IdentityError::Unauthorized("x".into()))) {
        LoginActionStep::Done(Ok(resp)) => {
            assert_eq!(resp.status_code, 303);
            assert_eq!(location(&resp.headers), "/login?login_challenge=a+b");
        }
        _ => panic!(),
    }
    match h.fetch_action_on_session("ch".into(), Ok(session("id-7", None))) {
        LoginActionStep::AcceptLogin { body, .. } => assert_eq!(body.subject, "id-7"),
        _ => panic!(),
    }
    match h.fetch_action_on_accept(Ok(CompletedRequest { redirect_to: "http://hydra/next".into() })) {
        LoginActionStep::Done(Ok(resp)) => assert_eq!(location(&resp.headers), "http://hydra/next"),
        _ => panic!(),
    }
    assert!(matches!(h.fetch_action_on_accept(Ok(CompletedRequest { redirect_to: "bad\nurl".into() })),
        LoginActionStep::Done(Err(FlowError::HeaderValueParse))));
    assert!(matches!(h.fetch_action_on_accept(Err(OidcError::AcceptRequest("x".into()))),
        LoginActionStep::Done(Err(FlowError::Oidc(OidcError::AcceptRequest(_))))));
}

fn consent_request(skip: Option<bool>) -> ConsentUiNode {
    ConsentUiNode {
        challenge: "cc".into(),
        subject: None,
        skip,
        client: client(),
        requested_scope: vec!["openid".into(), "email".into()],
        requested_access_token_audience: Some(vec!["api".into()]),
        login_session_id: None,
    }
}

fn consent_handler() -> ConsentFlowHandler {
    ConsentFlowHandler::new(KratosService::new("http://kratos".into()), HydraService::new("http://hydra".into()))
}

#[test]
fn consent_skip_accepts_with_claims() {
    let h = consent_handler();
    let (challenge, request) = match h.fetch_ui_on_consent_request("cc".into(), Ok(consent_request(Some(true)))) {
        ConsentFetchStep::CheckSession { challenge, request } => (challenge, request),
        _ => panic!(),
    };
    match h.fetch_ui_on_session(challenge, request, Ok(session("u1", Some("u1@example.org")))) {
        ConsentFetchStep::AcceptConsent { body, .. } => {
            assert_eq!(body.grant_scope, vec!["openid".to_string(), "email".to_string()]);
            assert_eq!(body.grant_access_token_audience, Some(vec!["api".to_string()]));
            let claims = body.session.unwrap().id_token.unwrap();
            assert_eq!(claims.sub, "u1");
            assert_eq!(claims.email, "u1@example.org");
        }
        _ => panic!(),
    }
}

#[test]
fn consent_without_skip_shows_page() {
    let h = consent_handler();
    match h.fetch_ui_on_consent_request("cc".into(), Ok(consent_request(None))) {
        ConsentFetchStep::Done(Ok(resp)) => {
            assert_eq!(resp.status_code, 200);
            assert_eq!(resp.ui_node.unwrap().challenge, "cc");
        }
        _ => panic!(),
    }
    assert!(matches!(h.fetch_ui_start(&params(&[])), ConsentFetchStep::Done(Err(FlowError::ConsentChallenge(_)))));
}

#[test]
fn consent_submit_accept_and_reject() {
    let h = consent_handler();
    let accept = ConsentSubmitNode { consent_challenge: "cc".into(), submit: "accept".into(), grant_scope: None };
    match h.submit_action_start(accept) {
        ConsentSubmitStep::CheckSession { challenge, grant_scope } => {
            assert_eq!(challenge, "cc");
            assert!(grant_scope.is_empty());
            match h.submit_action_on_session(challenge, vec!["openid".into()], Ok(session("u", None))) {
                ConsentSubmitStep::AcceptConsent { body, .. } => {
                    assert_eq!(body.grant_access_token_audience, None);
                    assert_eq!(body.session.unwrap().id_token.unwrap().email, "");
                }
                _ => panic!(),
            }
        }
        _ => panic!(),
    }
    let reject = ConsentSubmitNode { consent_challenge: "cc".into(), submit: "reject".into(), grant_scope: None };
    match h.submit_action_start(reject) {
        ConsentSubmitStep::RejectConsent { rejection: body, .. } => {
            assert_eq!(body.error, "consent_denied");
            assert_eq!(body.status_code, Some(403));
        }
        _ => panic!(),
    }
    match h.submit_action_on_completed(Ok(CompletedRequest { redirect_to: "http://rp/cb".into() })) {
        ConsentSubmitStep::Done(Ok(r)) => assert_eq!(r.status_code, 303),
        _ => panic!(),
    }
}

#[test]
fn error_page_variants() {
    let h = ErrorFlowHandler::new(KratosService::new("http://kratos".into()));
    match h.fetch_ui_start(&params(&[("error", "access_denied")])) {
        ErrorStep::Done(Ok(resp)) => {
            assert_eq!(resp.status_code, 200);
            let n = resp.ui_node.unwrap();
            assert_eq!(n.title, "Access Denied");
            assert_eq!(n.description, "An OAuth2 error occurred: access_denied");
        }
        _ => panic!(),
    }
    match h.fetch_ui_start(&params(&[("error", "x"), ("error_description", "why")])) {
        ErrorStep::Done(Ok(resp)) => assert_eq!(resp.ui_node.unwrap().description, "why"),
        _ => panic!(),
    }
    match h.fetch_ui_start(&params(&[])) {
        ErrorStep::Done(Ok(resp)) => {
            assert_eq!(resp.status_code, 500);
            assert_eq!(resp.ui_node.unwrap().title, "An Unknown Error Occurred");
        }
        _ => panic!(),
    }
    assert!(matches!(h.fetch_ui_start(&params(&[("id", "e1"), ("error", "x")])), ErrorStep::GetError { id } if id == "e1"));
    let detail = KratosErrorDetail { code: Some(410), status: Some("Gone".into()), reason: None, message: Some("expired".into()) };
    match h.fetch_ui_on_error(Ok(KratosErrorContainer { id: "e1".into(), error: detail })) {
        ErrorStep::Done(Ok(resp)) => {
            let n = resp.ui_node.unwrap();
            assert_eq!(n.title, "Gone");
            assert_eq!(n.description, "expired");
        }
        _ => panic!(),
    }
    match h.fetch_ui_on_error(Err(IdentityError::RetrieveError("x".into()))) {
        ErrorStep::Done(Ok(resp)) => assert_eq!(resp.status_code, 500),
        _ => panic!(),
    }
}

#[test]
fn error_titles() {
    assert_eq!(error_title("access_denied"), "Access Denied");
    assert_eq!(error_title("  invalid__request  "), "Invalid Request");
    assert_eq!(error_title(""), "");
    assert_eq!(error_title("ßtraße"), "SStraße");
}

#[test]
fn logout_flows() {
    let h = LogoutFlowHandler::new(KratosService::new("http://kratos".into()), HydraService::new("http://hydra".into()));
    assert!(matches!(h.fetch_action_start(&params(&[("logout_challenge", "l1")])), LogoutStep::AcceptLogout { challenge } if challenge == "l1"));
    assert!(matches!(h.fetch_action_start(&params(&[])), LogoutStep::CreateLogoutFlow { return_to: None }));
    assert!(matches!(h.fetch_action_on_accept(Ok(CompletedRequest { redirect_to: "http://rp/bye".into() })),
        LogoutStep::CreateLogoutFlow { return_to: Some(r) } if r == "http://rp/bye"));
    let flow = KratosLogoutFlow { logout_url: "http://kratos/logout?token=t".into(), logout_token: "t".into() };
    match h.fetch_action_on_logout_flow(None, Ok(flow)) {
        LogoutStep::Done(Ok(r)) => assert_eq!(location(&r.headers), "http://kratos/logout?token=t"),
        _ => panic!(),
    }
    match h.fetch_action_on_logout_flow(None, Err(IdentityError::Unauthorized("no".into()))) {
        LogoutStep::Done(Ok(r)) => assert_eq!(location(&r.headers), "/login"),
        _ => panic!(),
    }
    assert!(matches!(h.fetch_action_on_logout_flow(Some("http://rp/bye".into()), Err(IdentityError::Unauthorized("no".into()))),
        LogoutStep::Done(Err(FlowError::Identity(IdentityError::Unauthorized(_))))));
}

#[test]
fn identity_answers() {
    let r = rewriter();
    let mut answer = HeaderMap::new();
    answer.append("set-cookie", HeaderValue::from_str("csrf=1").unwrap());
    answer.append("location", HeaderValue::from_str("http://kratos:4433/self-service/login/browser?flow=5").unwrap());
    match handle_identity_fetch_flow(FlowType::Login, &params(&[]), 303, &answer, &r) {
        IdentityAnswer::Redirect { status_code, headers } => {
            assert_eq!(status_code, 303);
            assert_eq!(location(&headers), "http://localhost:3000/login/browser?flow=5");
            assert_eq!(headers.get("set-cookie").unwrap().to_str().unwrap(), "csrf=1");
        }
        _ => panic!(),
    }
    match handle_identity_fetch_flow(FlowType::Login, &params(&[("flow", "5")]), 303, &answer, &r) {
        IdentityAnswer::Failed(IdentityError::RetrieveRequest(m)) => assert_eq!(m, "Failed to get Login flow: 303 See Other"),
        _ => panic!(),
    }
    assert!(matches!(handle_identity_fetch_flow(FlowType::Login, &params(&[]), 200, &answer, &r), IdentityAnswer::ReadFlow { status_code: 200, .. }));
    assert!(matches!(handle_identity_submit_flow(400, &answer, &r), IdentityAnswer::ReadFlow { status_code: 400, .. }));
    assert!(matches!(handle_identity_submit_flow(500, &answer, &r), IdentityAnswer::ReadErrorBody { status_code: 500 }));
    match identity_submit_on_error_body(FlowType::Settings, 500, Ok("boom".into())) {
        IdentityError::PostFlow(m) => assert_eq!(m, "Form submission failed. flow=(Settings), status=(500 Internal Server Error), , body=(boom)"),
        _ => panic!(),
    }
}

#[test]
fn missing_subject_message_renders_oidc_context_as_json_value() {
    let h = login_handler();
    let mut req = login_request(true, None);
    req.oidc_context = Some("{\"ui_locales\":[\"en\"],\"max_age\":30}".into());
    match h.fetch_action_on_login_request("ch".into(), Ok(req)) {
        LoginActionStep::Done(Err(FlowError::Subject(m))) => assert!(m.ends_with(
            ", oidc_context: Some(Object {\"max_age\": Number(30), \"ui_locales\": Array [String(\"en\")]}) })"
        ), "{}", m),
        _ => panic!(),
    }
}
