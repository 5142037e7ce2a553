use ory_selfservice_rust::domain::{ConsentUiNode, FlowType, InputValue, LoginUiNode, OAuth2Client, UiContainer, UiNodeInputAttributes, UiNodeMeta, UiText};
use ory_selfservice_rust::errors::AppError;
use ory_selfservice_rust::headers::{HeaderMap, HeaderValue};
use ory_selfservice_rust::direct::{
    flow_type_of_route, init_flow_on_answer, init_flow_on_body, proxy_post_on_body, KratosClient, KratosFlow,
    RouteAnswer, RouteConfig, RouteResponse,
};
use ory_selfservice_rust::routes_oauth2::{oauth2_consent_submit_on_session, oauth2_login_start, ConsentForm, OAuth2ConsentSubmitStep, OAuth2LoginStep};
use ory_selfservice_rust::params::Params;
use ory_selfservice_rust::ui::{alert_kind, consent_subtitle, input_view, request_client_ip, request_user_agent, signup_href, AlertKind, InputView};

fn text(t: &str) -> UiText {
    UiText { id: 1, text: t.into(), text_type: "info".into(), context: None }
}

fn input(name: &str, ty: &str, value: Option<InputValue>) -> UiNodeInputAttributes {
    UiNodeInputAttributes { name: name.into(), input_type: ty.into(), value, required: None, disabled: false, label: None, onclick: None }
}

#[test]
fn input_views() {
    let meta = UiNodeMeta { label: None };
    match input_view(&input("csrf_token", "hidden", Some(InputValue::Text("t".into()))), &meta, &vec![]) {
        InputView::Hidden { name, value } => {
            assert_eq!(name, "csrf_token");
            assert_eq!(value, "t");
        }
        _ => panic!(),
    }
    match input_view(&input("method", "submit", Some(InputValue::Null)), &UiNodeMeta { label: Some(text("Sign in")) }, &vec![]) {
        InputView::Button { value, primary, label, .. } => {
            assert_eq!(value, "method");
            assert!(primary);
            assert_eq!(label, "Sign in");
        }
        _ => panic!(),
    }
    match input_view(&input("link", "button", None), &meta, &vec![]) {
        InputView::Button { primary, label, .. } => {
            assert!(!primary);
            assert_eq!(label, "");
        }
        _ => panic!(),
    }
    match input_view(&input("traits.first_name", "text", Some(InputValue::Other("42".into()))), &meta, &vec![text("too short")]) {
        InputView::Field { label, value, placeholder, messages, required, .. } => {
            assert_eq!(label, "traits.first_name");
            assert_eq!(value, "42");
            assert_eq!(placeholder, "Enter traits.first name...");
            assert_eq!(messages, vec!["too short".to_string()]);
            assert!(!required);
        }
        _ => panic!(),
    }
}

#[test]
fn alert_kinds() {
    assert_eq!(alert_kind("error"), AlertKind::Error);
    assert_eq!(alert_kind("success"), AlertKind::Success);
    assert_eq!(alert_kind("info"), AlertKind::Info);
    assert_eq!(alert_kind("other"), AlertKind::Neutral);
}

#[test]
fn signup_links() {
    assert_eq!(
        signup_href("http://k/self-service/login/browser?login_challenge=abc&x=1&return_to=http%3A%2F%2Frp"),
        "/registration?login_challenge=abc&return_to=http%3A%2F%2Frp"
    );
    assert_eq!(signup_href("http://k/self-service/login/browser?x=1"), "/registration");
    assert_eq!(signup_href("not a url"), "/registration");
}

#[test]
fn consent_subtitles() {
    let mut req = ConsentUiNode {
        challenge: "c".into(),
        subject: None,
        skip: None,
        client: OAuth2Client { client_id: "cid".into(), client_name: None, logo_uri: None, policy_uri: None, tos_uri: None },
        requested_scope: vec![],
        requested_access_token_audience: None,
        login_session_id: None,
    };
    assert_eq!(consent_subtitle(&req), "cid wishes to access your account");
    req.client.client_name = Some("DiTA".into());
    assert_eq!(consent_subtitle(&req), "DiTA wishes to access your account");
}

#[test]
fn request_logging_fields() {
    let mut h = HeaderMap::new();
    assert_eq!(request_client_ip(&h), "unknown");
    assert_eq!(request_user_agent(&h), "unknown");
    h.append("x-real-ip", HeaderValue::from_str("10.0.0.2").unwrap());
    assert_eq!(request_client_ip(&h), "10.0.0.2");
    h.append("x-forwarded-for", HeaderValue::from_str("1.2.3.4").unwrap());
    h.append("user-agent", HeaderValue::from_str("curl").unwrap());
    assert_eq!(request_client_ip(&h), "1.2.3.4");
    assert_eq!(request_user_agent(&h), "curl");
}

#[test]
fn error_responses_hide_upstream_details() {
    let e = AppError::Kratos("connection refused to 10.0.0.1".into());
    assert_eq!(e.status(), 502);
    assert_eq!(e.public_message(), "Upstream Ory Kratos service error occurred. Please try again.");
    let e = AppError::Unauthorized("No active session".into());
    assert_eq!(e.status(), 401);
    assert_eq!(e.public_message(), "No active session");
    assert_eq!(AppError::NotFound("x".into()).status(), 404);
    assert_eq!(AppError::Internal("x".into()).public_message(), "An internal server error occurred.");
}

fn config() -> RouteConfig {
    RouteConfig { kratos_public_url: "http://kratos:4433".into(), public_base_url: "http://localhost:3000".into() }
}

fn login_flow(action: &str) -> LoginUiNode {
    LoginUiNode {
        id: "f".into(),
        flow_type: "browser".into(),
        expires_at: String::new(),
        issued_at: String::new(),
        request_url: String::new(),
        ui: UiContainer { action: action.into(), method: "POST".into(), nodes: vec![], messages: None },
        active: None,
        return_to: None,
        state: None,
    }
}

#[test]
fn direct_routes() {
    assert_eq!(flow_type_of_route("settings"), Some(FlowType::Settings));
    assert_eq!(flow_type_of_route("logout"), None);
    let mut answer = HeaderMap::new();
    answer.append("set-cookie", HeaderValue::from_str("a=1").unwrap());
    answer.append("location", HeaderValue::from_str("http://kratos:4433/self-service/login/browser?flow=1").unwrap());
    match init_flow_on_answer(&config(), "login", 303, &answer) {
        RouteAnswer::Respond(RouteResponse::Headers { status_code, headers }) => {
            assert_eq!(status_code, 303);
            assert_eq!(headers.get("location").unwrap().to_str().unwrap(), "http://localhost:3000/login?flow=1");
        }
        _ => panic!(),
    }
    assert!(matches!(init_flow_on_answer(&config(), "login", 500, &HeaderMap::new()),
        RouteAnswer::Failed(AppError::Kratos(m)) if m == "Failed to initialize login flow: status 500 Internal Server Error"));
    let page = init_flow_on_body(&config(), "login", 200, HeaderMap::new(),
        Ok(Some(KratosFlow::Login(login_flow("http://kratos:4433/self-service/login?flow=1")))));
    match page {
        Ok(RouteResponse::FlowPage { status_code, flow: KratosFlow::Login(f), .. }) => {
            assert_eq!(status_code, 200);
            assert_eq!(f.ui.action, "http://localhost:3000/login?flow=1");
        }
        _ => panic!(),
    }
    assert!(matches!(proxy_post_on_body(&config(), 422, HeaderMap::new(), Ok(None)),
        Err(AppError::Kratos(m)) if m == "Form submission failed (status 422 Unprocessable Entity)"));
    assert!(matches!(proxy_post_on_body(&config(), 400, HeaderMap::new(), Ok(Some(KratosFlow::Login(login_flow("/x"))))),
        Ok(RouteResponse::FlowPage { status_code: 400, .. })));
}

#[test]
fn direct_kratos_client() {
    let k = KratosClient::new("http://kratos".into());
    let mut h = HeaderMap::new();
    h.append("cookie", HeaderValue::from_str("a").unwrap());
    h.append("cookie", HeaderValue::from_str("b").unwrap());
    let req = k.get_flow(FlowType::Login, "ab-12", &h).unwrap();
    assert_eq!(req.url, "http://kratos/self-service/login/flows?id=ab-12");
    assert_eq!(req.headers.len(), 1);
    assert!(matches!(k.get_flow(FlowType::Login, "x/y", &h), Err(AppError::Kratos(m)) if m == "Invalid flow ID format"));
    assert!(matches!(KratosClient::get_flow_outcome(FlowType::Recovery, 404),
        Err(AppError::Kratos(m)) if m == "Failed to get recovery flow: 404 Not Found"));
}

#[test]
fn direct_oauth2_routes() {
    assert!(matches!(oauth2_login_start(&Params::new()), OAuth2LoginStep::Done(Err(AppError::Hydra(m))) if m == "Missing login_challenge parameter"));
    let form = ConsentForm { consent_challenge: "c".into(), submit: "accept".into(), grant_scope: Some(vec!["openid".into()]) };
    let _ = form;
    assert!(matches!(oauth2_consent_submit_on_session("c".into(), vec![], Err(AppError::Kratos("x".into()))),
        OAuth2ConsentSubmitStep::Done(Err(AppError::Unauthorized(m))) if m == "No active Kratos session found during consent"));
}

#[test]
fn kratos_client_reads_each_flow_by_name() {
    let k = KratosClient::new("http://kratos".into());
    let h = HeaderMap::new();
    assert_eq!(k.get_registration_flow("abc", &h).unwrap().url, "http://kratos/self-service/registration/flows?id=abc");
    assert_eq!(k.get_recovery_flow("abc", &h).unwrap().url, "http://kratos/self-service/recovery/flows?id=abc");
    assert_eq!(k.get_verification_flow("abc", &h).unwrap().url, "http://kratos/self-service/verification/flows?id=abc");
    assert_eq!(k.get_settings_flow("abc", &h).unwrap().url, "http://kratos/self-service/settings/flows?id=abc");
    assert_eq!(k.get_login_flow("abc", &h).unwrap().url, "http://kratos/self-service/login/flows?id=abc");
    assert!(matches!(k.get_settings_flow("zz", &h), Err(AppError::Kratos(m)) if m == "Invalid flow ID format"));
}

#[test]
fn flow_read_answer_keeps_only_cookies() {
    let mut answer = HeaderMap::new();
    answer.append("set-cookie", HeaderValue::from_str("csrf=1").unwrap());
    answer.append("content-type", HeaderValue::from_str("application/json").unwrap());
    answer.append("set-cookie", HeaderValue::from_str("sid=2").unwrap());
    let cookies = KratosClient::get_flow_on_answer(FlowType::Login, 200, &answer).unwrap();
    assert_eq!(cookies.len(), 2);
    assert_eq!(cookies.name_at(0), "set-cookie");
    assert_eq!(cookies.value_at(0).to_str().unwrap(), "csrf=1");
    assert_eq!(cookies.value_at(1).to_str().unwrap(), "sid=2");
    assert!(matches!(KratosClient::get_flow_on_answer(FlowType::Login, 410, &answer),
        Err(AppError::Kratos(m)) if m == "Failed to get login flow: 410 Gone"));
}
