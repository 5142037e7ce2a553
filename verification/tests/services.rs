use ory_selfservice_rust::domain::FlowType;
use ory_selfservice_rust::errors::{IdentityError, OidcError, AppError, UrlError};
use ory_selfservice_rust::headers::{HeaderMap, HeaderValue};
use ory_selfservice_rust::hydra::{client_outcome, service_outcome, HydraClient, HydraService, OidcCall};
use ory_selfservice_rust::kratos::KratosService;
use ory_selfservice_rust::params::Params;
use ory_selfservice_rust::requests::{Method, RequestBody};
use ory_selfservice_rust::urls::app_in_the_middle;
use ory_selfservice_rust::url_rewrite::{rewrite_action_url, UrlRewriter};

fn header(h: &mut HeaderMap, name: &str, value: &str) {
    h.append(name, HeaderValue::from_str(value).unwrap());
}

fn entries(h: &HeaderMap) -> Vec<(String, String)> {
    (0..h.len())
        .map(|i| (h.name_at(i), h.value_at(i).to_str().unwrap()))
        .collect()
}

#[test]
fn target_to_identity_builds_flow_urls() {
    let k = KratosService::new("http://kratos:4433".to_string());
    let empty = Params::new();
    assert_eq!(
        k.target_to_identity(&FlowType::Login, Some("browser"), &empty),
        "http://kratos:4433/self-service/login/browser"
    );
    let mut p = Params::new();
    p.insert("id".to_string(), "a b&c".to_string());
    assert_eq!(
        k.target_to_identity(&FlowType::Settings, Some("flows"), &p),
        "http://kratos:4433/self-service/settings/flows?id=a+b%26c"
    );
    assert_eq!(k.target_to_identity(&FlowType::Registration, None, &empty), "http://kratos:4433/self-service/registration");
}

#[test]
fn validate_ids() {
    let k = KratosService::new(String::new());
    assert!(k.validate_flow_id("0a1B-2c").is_ok());
    assert!(matches!(k.validate_flow_id("../x"), Err(IdentityError::IncorrectFlowIdFormat(s)) if s == "../x"));
    assert!(k.validate_flow_id("xyz").is_err());
    assert!(k.validate_error_id("xyz-09").is_ok());
    assert!(matches!(k.validate_error_id("a/b"), Err(IdentityError::IncorrectErrorIdFormat(s)) if s == "a/b"));
}

#[test]
fn forwarded_headers_keep_only_listed_names() {
    let k = KratosService::new("http://kratos".to_string());
    let mut h = HeaderMap::new();
    header(&mut h, "authorization", "secret");
    header(&mut h, "cookie", "a=1");
    header(&mut h, "user-agent", "ua");
    header(&mut h, "cookie", "b=2");
    header(&mut h, "content-type", "application/x-www-form-urlencoded");
    let out = k.copy_forward_headers(&h, &vec![]);
    assert_eq!(
        entries(&out),
        vec![
            ("cookie".to_string(), "a=1".to_string()),
            ("cookie".to_string(), "b=2".to_string()),
            ("user-agent".to_string(), "ua".to_string()),
        ]
    );
    let out = k.copy_forward_headers(&h, &vec!["content-type"]);
    assert_eq!(entries(&out).last().unwrap().0, "content-type");
}

#[test]
fn fetch_flow_reads_named_flow_or_starts_one() {
    let k = KratosService::new("http://kratos".to_string());
    let h = HeaderMap::new();
    let mut p = Params::new();
    let req = k.fetch_flow(&FlowType::Login, &h, &p).unwrap();
    assert_eq!(req.url, "http://kratos/self-service/login/browser");
    assert!(req.method == Method::Get);
    p.insert("flow".to_string(), "abc-123".to_string());
    let req = k.fetch_flow(&FlowType::Recovery, &h, &p).unwrap();
    assert_eq!(req.url, "http://kratos/self-service/recovery/flows?id=abc-123");
    let mut bad = Params::new();
    bad.insert("flow".to_string(), "zz".to_string());
    assert!(matches!(k.fetch_flow(&FlowType::Login, &h, &bad), Err(IdentityError::IncorrectFlowIdFormat(_))));
}

#[test]
fn proxy_submit_flow_posts_body() {
    let k = KratosService::new("http://kratos".to_string());
    let mut p = Params::new();
    p.insert("flow".to_string(), "1".to_string());
    let req = k.proxy_submit_flow(&FlowType::Verification, &HeaderMap::new(), &p, b"x=1".to_vec());
    assert_eq!(req.url, "http://kratos/self-service/verification?flow=1");
    assert!(req.method == Method::Post);
    assert!(matches!(req.body, RequestBody::Raw(ref b) if b == b"x=1"));
}

#[test]
fn session_and_logout_outcomes() {
    assert!(matches!(KratosService::check_session_outcome(401), Err(IdentityError::Unauthorized(m)) if m == "No active session found"));
    assert!(matches!(KratosService::check_session_outcome(500),
        Err(IdentityError::CheckSession(m)) if m == "Failed checking session: status_code=(500 Internal Server Error)"));
    assert!(KratosService::check_session_outcome(200).is_ok());
    assert!(matches!(KratosService::create_logout_flow_outcome(401), Err(IdentityError::Unauthorized(_))));
    assert!(matches!(KratosService::create_logout_flow_outcome(404),
        Err(IdentityError::RetrieveLogout(m)) if m == "Failed to create logout flow: 404 Not Found"));
    assert!(matches!(KratosService::get_error_outcome(410),
        Err(IdentityError::RetrieveError(m)) if m == "Failed to fetch error flow: 410 Gone"));
}

#[test]
fn logout_url_encodes_return_to() {
    let k = KratosService::new("http://kratos".to_string());
    let req = k.create_logout_flow(&HeaderMap::new(), Some("https://rp/cb?x=1&y=2"));
    assert_eq!(req.url, "http://kratos/self-service/logout/browser?return_to=https%3A%2F%2Frp%2Fcb%3Fx%3D1%26y%3D2");
    let req = k.create_logout_flow(&HeaderMap::new(), None);
    assert_eq!(req.url, "http://kratos/self-service/logout/browser");
}

#[test]
fn get_error_request() {
    let k = KratosService::new("http://kratos".to_string());
    assert_eq!(k.get_error("abc").unwrap().url, "http://kratos/self-service/errors?id=abc");
    assert!(k.get_error("a?b").is_err());
}

#[test]
fn hydra_requests_and_outcomes() {
    let h = HydraService::new("http://hydra:4445".to_string());
    let r = h.get_login_request("ch1");
    assert_eq!(r.url, "http://hydra:4445/oauth2/auth/requests/login?login_challenge=ch1");
    assert!(r.method == Method::Get);
    let r = h.accept_logout_request("lc");
    assert_eq!(r.url, "http://hydra:4445/oauth2/auth/requests/logout/accept?logout_challenge=lc");
    assert!(r.method == Method::Put);
    assert!(matches!(r.body, RequestBody::EmptyJsonObject));
    assert!(service_outcome(OidcCall::GetLogin, 200).is_ok());
    assert!(matches!(service_outcome(OidcCall::GetLogin, 404),
        Err(OidcError::RetrieveRequest(m)) if m == "Failed to retrieve login request. status_code=(404 Not Found)"));
    assert!(matches!(service_outcome(OidcCall::RejectConsent, 500),
        Err(OidcError::AcceptRequest(m)) if m == "Failed to reject consent request. status_code=(500 Internal Server Error)"));
    assert!(matches!(service_outcome(OidcCall::GetLogout, 400),
        Err(OidcError::RetrieveRequest(m)) if m == "Failed to retrieve logout request: 400 Bad Request"));
    assert!(matches!(client_outcome(OidcCall::AcceptConsent, 502),
        Err(AppError::Hydra(m)) if m == "Failed to accept consent request: 502 Bad Gateway"));
}

#[test]
fn app_in_the_middle_parses_urls() {
    let a = app_in_the_middle("http://localhost:3000", "http://kratos-public:4433").unwrap();
    assert_eq!(
        a.rewrite("http://kratos-public:4433/self-service/login?flow=1"),
        "http://localhost:3000/login?flow=1"
    );
    assert!(matches!(app_in_the_middle("not a url", "http://k"), Err(AppError::Url(UrlError::RelativeUrlWithoutBase))));
    assert!(matches!(app_in_the_middle("http://a", "http://[::1"), Err(AppError::Url(UrlError::InvalidIpv6Address))));
}

#[test]
fn rewrite_action_url_keeps_query() {
    for (path, local) in [
        ("/self-service/login", "/login"),
        ("/self-service/registration", "/registration"),
        ("/self-service/recovery", "/recovery"),
        ("/self-service/verification", "/verification"),
        ("/self-service/settings", "/settings"),
    ] {
        let action = format!("http://kratos:4433{}?flow=42", path);
        assert_eq!(
            rewrite_action_url(&action, "http://kratos:4433/", "https://app.example/"),
            format!("https://app.example{}?flow=42", local)
        );
    }
    assert_eq!(rewrite_action_url("/other", "http://k", "http://a"), "/other");
}

#[test]
fn rewrite_header_drops_invalid_and_reads_text() {
    let a = app_in_the_middle("http://app", "http://k").unwrap();
    let v = HeaderValue::from_str("http://k/self-service/login/browser?flow=1").unwrap();
    let out = a.rewrite_header(&v).unwrap();
    assert_eq!(out.to_str().unwrap(), "http://app/login/browser?flow=1");
    // A value that is not visible ASCII is read as the empty text.
    let odd = HeaderValue::from_bytes(&vec![0xC3, 0xA9]).unwrap();
    assert!(odd.to_str().is_none());
    assert_eq!(a.rewrite_header(&odd).unwrap().to_str().unwrap(), "");
}

#[test]
fn header_values() {
    assert!(HeaderValue::from_str("ok value").is_some());
    assert!(HeaderValue::from_str("bad\nvalue").is_none());
    assert!(HeaderValue::from_bytes(&vec![0x7f]).is_none());
    let mut h = HeaderMap::new();
    header(&mut h, "location", "/a");
    header(&mut h, "set-cookie", "c");
    header(&mut h, "location", "/b");
    h.insert("location", HeaderValue::from_str("/c").unwrap());
    let got: Vec<String> = h.get_all("location").iter().map(|v| v.to_str().unwrap()).collect();
    assert_eq!(got, vec!["/c".to_string()]);
    assert_eq!(h.get("set-cookie").unwrap().to_str().unwrap(), "c");
}

#[test]
fn hydra_client_builds_admin_requests() {
    let c = HydraClient::new("http://hydra:4445".to_string());
    let r = c.get_login_request("lc");
    assert_eq!(r.url, "http://hydra:4445/oauth2/auth/requests/login?login_challenge=lc");
    assert!(matches!(r.method, Method::Get));
    let r = c.accept_logout_request("oc");
    assert_eq!(r.url, "http://hydra:4445/oauth2/auth/requests/logout/accept?logout_challenge=oc");
    assert!(matches!(r.method, Method::Put));
    assert!(matches!(r.body, RequestBody::EmptyJsonObject));
    let r = c.get_consent_request("cc");
    assert_eq!(r.url, "http://hydra:4445/oauth2/auth/requests/consent?consent_challenge=cc");
    assert!(matches!(client_outcome(OidcCall::GetConsent, 502),
        Err(AppError::Hydra(m)) if m == "Failed to retrieve consent request: 502 Bad Gateway"));
}

#[test]
fn params_insert_then_get_reads_the_new_value() {
    let mut p = Params::new();
    assert_eq!(p.get("flow"), None);
    p.insert("flow".to_string(), "a1".to_string());
    assert_eq!(p.get("flow"), Some("a1".to_string()));
    p.insert("return_to".to_string(), "/home".to_string());
    p.insert("flow".to_string(), "b2".to_string());
    assert_eq!(p.get("flow"), Some("b2".to_string()));
    assert_eq!(p.get("return_to"), Some("/home".to_string()));
    let pairs = p.pairs();
    assert_eq!(pairs, vec![("flow".to_string(), "b2".to_string()), ("return_to".to_string(), "/home".to_string())]);
}

#[test]
fn header_insert_keeps_the_first_position() {
    let mut h = HeaderMap::new();
    header(&mut h, "location", "/a");
    header(&mut h, "set-cookie", "c");
    header(&mut h, "location", "/b");
    h.insert("location", HeaderValue::from_str("/c").unwrap());
    assert_eq!(entries(&h), vec![("location".to_string(), "/c".to_string()), ("set-cookie".to_string(), "c".to_string())]);
    h.insert("accept", HeaderValue::from_str("*/*").unwrap());
    assert_eq!(entries(&h)[2], ("accept".to_string(), "*/*".to_string()));
}

#[test]
fn header_names_are_lower_case_tokens() {
    let mut h = HeaderMap::new();
    assert!(h.append_checked("x-request-id", HeaderValue::from_str("1").unwrap()));
    assert!(!h.append_checked("X-Request-Id", HeaderValue::from_str("2").unwrap()));
    assert!(!h.append_checked("", HeaderValue::from_str("3").unwrap()));
    assert!(!h.append_checked("bad name", HeaderValue::from_str("4").unwrap()));
    assert_eq!(entries(&h), vec![("x-request-id".to_string(), "1".to_string())]);
}
