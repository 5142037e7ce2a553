//! The values that flow between the browser, Kratos and Hydra.
use vstd::prelude::*;
use crate::headers::HeaderMap;

verus! {

/// The self-service and OAuth2 flows that the application serves.
#[derive(Clone, Copy, Debug, PartialEq, Eq, Structural, Hash)]
pub enum FlowType {
    Login,
    Registration,
    Recovery,
    Verification,
    Settings,
    Error,
    Logout,
    Consent,
}

/// The display name of a flow type (its variant name).
pub open spec fn flow_type_name(t: FlowType) -> Seq<char> {
    match t {
        FlowType::Login => "Login"@,
        FlowType::Registration => "Registration"@,
        FlowType::Recovery => "Recovery"@,
        FlowType::Verification => "Verification"@,
        FlowType::Settings => "Settings"@,
        FlowType::Error => "Error"@,
        FlowType::Logout => "Logout"@,
        FlowType::Consent => "Consent"@,
    }
}

/// The display name in lower case, as it appears in Kratos paths.
pub open spec fn flow_type_segment(t: FlowType) -> Seq<char> {
    match t {
        FlowType::Login => "login"@,
        FlowType::Registration => "registration"@,
        FlowType::Recovery => "recovery"@,
        FlowType::Verification => "verification"@,
        FlowType::Settings => "settings"@,
        FlowType::Error => "error"@,
        FlowType::Logout => "logout"@,
        FlowType::Consent => "consent"@,
    }
}

impl FlowType {
    /// The display name of the flow type.
    pub fn name(&self) -> (s: &'static str)
        ensures
            s@ == flow_type_name(*self),
    {
        match self {
            FlowType::Login => "Login",
            FlowType::Registration => "Registration",
            FlowType::Recovery => "Recovery",
            FlowType::Verification => "Verification",
            FlowType::Settings => "Settings",
            FlowType::Error => "Error",
            FlowType::Logout => "Logout",
            FlowType::Consent => "Consent",
        }
    }

    /// The display name in lower case.
    pub fn segment(&self) -> (s: &'static str)
        ensures
            s@ == flow_type_segment(*self),
    {
        match self {
            FlowType::Login => "login",
            FlowType::Registration => "registration",
            FlowType::Recovery => "recovery",
            FlowType::Verification => "verification",
            FlowType::Settings => "settings",
            FlowType::Error => "error",
            FlowType::Logout => "logout",
            FlowType::Consent => "consent",
        }
    }
}

/// A message of a Kratos UI container or node.
#[derive(Debug)]
pub struct UiText {
    pub id: i64,
    pub text: String,
    pub text_type: String,
    /// The message context, as JSON text.
    pub context: Option<String>,
}

/// A Kratos form: where it posts, how, its nodes and its messages.
#[derive(Debug)]
pub struct UiContainer {
    pub action: String,
    pub method: String,
    pub nodes: Vec<UiNode>,
    pub messages: Option<Vec<UiText>>,
}

#[derive(Debug)]
pub struct UiNode {
    pub node_type: String,
    pub group: String,
    pub attributes: UiNodeAttributes,
    pub messages: Vec<UiText>,
    pub meta: UiNodeMeta,
}

#[derive(Debug)]
pub struct UiNodeMeta {
    pub label: Option<UiText>,
}

#[derive(Debug)]
pub struct UiNodeDivisionAttributes {
    pub id: String,
    pub class: Option<String>,
}

/// The attributes of a Kratos UI node, by node type.
#[derive(Debug)]
pub enum UiNodeAttributes {
    Input(UiNodeInputAttributes),
    Image(UiNodeImageAttributes),
    Anchor(UiNodeAnchorAttributes),
    Text(UiNodeTextAttributes),
    Script(UiNodeScriptAttributes),
    Division(UiNodeDivisionAttributes),
    Unknown,
}

/// The value of an input node, as the UI reads it: JSON `null`, a JSON
/// string, or any other JSON value with its serialized text.
#[derive(Debug)]
pub enum InputValue {
    Null,
    Text(String),
    Other(String),
}

#[derive(Debug)]
pub struct UiNodeInputAttributes {
    pub name: String,
    pub input_type: String,
    pub value: Option<InputValue>,
    pub required: Option<bool>,
    pub disabled: bool,
    pub label: Option<UiText>,
    pub onclick: Option<String>,
}

#[derive(Debug)]
pub struct UiNodeImageAttributes {
    pub id: String,
    pub src: String,
    pub width: i64,
    pub height: i64,
    pub alt: Option<String>,
}

#[derive(Debug)]
pub struct UiNodeAnchorAttributes {
    pub id: String,
    pub href: String,
    pub title: UiText,
}

#[derive(Debug)]
pub struct UiNodeTextAttributes {
    pub id: String,
    pub text: UiText,
}

#[derive(Debug)]
pub struct UiNodeScriptAttributes {
    pub id: String,
    pub src: String,
    pub script_type: String,
    pub async_src: bool,
    pub crossorigin: String,
    pub integrity: String,
    pub referrerpolicy: String,
}

/// A Kratos login flow.
#[derive(Debug)]
pub struct LoginUiNode {
    pub id: String,
    pub flow_type: String,
    pub expires_at: String,
    pub issued_at: String,
    pub request_url: String,
    pub ui: UiContainer,
    pub active: Option<String>,
    pub return_to: Option<String>,
    pub state: Option<String>,
}

/// A Kratos registration flow.
#[derive(Debug)]
pub struct RegistrationUiNode {
    pub id: String,
    pub flow_type: String,
    pub expires_at: String,
    pub issued_at: String,
    pub request_url: String,
    pub ui: UiContainer,
    pub active: Option<String>,
    pub return_to: Option<String>,
    pub state: Option<String>,
}

/// A Kratos recovery flow.
#[derive(Debug)]
pub struct RecoveryUiNode {
    pub id: String,
    pub flow_type: String,
    pub expires_at: String,
    pub issued_at: Option<String>,
    pub request_url: Option<String>,
    pub ui: UiContainer,
    pub active: Option<String>,
    pub state: Option<String>,
}

/// A Kratos verification flow.
#[derive(Debug)]
pub struct VerificationUiNode {
    pub id: String,
    pub flow_type: String,
    pub expires_at: String,
    pub issued_at: Option<String>,
    pub request_url: Option<String>,
    pub ui: UiContainer,
    pub active: Option<String>,
    pub state: Option<String>,
}

/// A Kratos settings flow.
#[derive(Debug)]
pub struct SettingsUiNode {
    pub id: String,
    pub flow_type: String,
    pub expires_at: String,
    pub ui: UiContainer,
    pub active: Option<String>,
    /// The identity, as JSON text.
    pub identity: String,
    pub state: Option<String>,
}

/// An OAuth2 client as Hydra describes it.
#[derive(Debug)]
pub struct OAuth2Client {
    pub client_id: String,
    pub client_name: Option<String>,
    pub logo_uri: Option<String>,
    pub policy_uri: Option<String>,
    pub tos_uri: Option<String>,
}

/// A Hydra consent request.
#[derive(Debug)]
pub struct ConsentUiNode {
    pub challenge: String,
    pub subject: Option<String>,
    pub skip: Option<bool>,
    pub client: OAuth2Client,
    pub requested_scope: Vec<String>,
    pub requested_access_token_audience: Option<Vec<String>>,
    pub login_session_id: Option<String>,
}

/// The consent form as the browser submits it.
#[derive(Debug)]
pub struct ConsentSubmitNode {
    pub consent_challenge: String,
    pub submit: String,
    pub grant_scope: Option<Vec<String>>,
}

/// What the error page shows.
#[derive(Debug)]
pub struct ErrorUiNode {
    pub title: String,
    pub description: String,
}

/// The part of a Kratos identity that the application reads: its id and
/// the `email` trait when that trait is a JSON string.
#[derive(Debug)]
pub struct KratosIdentity {
    pub id: String,
    pub email: Option<String>,
}

/// A Kratos session.
#[derive(Debug)]
pub struct KratosSession {
    pub id: String,
    pub active: bool,
    pub expires_at: String,
    pub authenticated_at: String,
    pub identity: KratosIdentity,
}

/// A Kratos self-service error.
#[derive(Debug)]
pub struct KratosErrorContainer {
    pub id: String,
    pub error: KratosErrorDetail,
}

#[derive(Debug)]
pub struct KratosErrorDetail {
    /// HTTP status code (e.g. 410 for "flow expired").
    pub code: Option<i64>,
    /// Short machine-readable status (e.g. "Gone", "Forbidden").
    pub status: Option<String>,
    /// Human-readable reason phrase.
    pub reason: Option<String>,
    /// Longer description of what went wrong.
    pub message: Option<String>,
}

/// A Kratos browser logout flow.
#[derive(Debug)]
pub struct KratosLogoutFlow {
    pub logout_url: String,
    pub logout_token: String,
}

/// A Hydra login request.
#[derive(Debug)]
pub struct LoginRequest {
    pub challenge: String,
    pub subject: Option<String>,
    pub skip: bool,
    pub client: OAuth2Client,
    pub request_url: String,
    /// The OIDC context, as JSON text.
    pub oidc_context: Option<String>,
}

/// The body that accepts a Hydra login request.
#[derive(Debug)]
pub struct AcceptLoginRequest {
    pub subject: String,
    pub remember: Option<bool>,
    pub remember_for: Option<i64>,
    pub acr: Option<String>,
    /// Extra context, as JSON text.
    pub context: Option<String>,
}

/// The body that rejects a Hydra request.
#[derive(Debug)]
pub struct RejectRequest {
    pub error: String,
    pub error_description: Option<String>,
    pub error_uri: Option<String>,
    pub status_code: Option<i64>,
}

/// Hydra's answer to an accepted or rejected request.
#[derive(Debug)]
pub struct CompletedRequest {
    pub redirect_to: String,
}

/// The claims put into a token: the subject and the email address.
#[derive(Debug)]
pub struct SessionClaims {
    pub sub: String,
    pub email: String,
}

/// The session data of an accepted consent.
#[derive(Debug)]
pub struct ConsentRequestSession {
    pub access_token: Option<SessionClaims>,
    pub id_token: Option<SessionClaims>,
}

/// The body that accepts a Hydra consent request.
#[derive(Debug)]
pub struct AcceptConsentRequest {
    pub grant_scope: Vec<String>,
    pub grant_access_token_audience: Option<Vec<String>>,
    pub remember: Option<bool>,
    pub remember_for: Option<i64>,
    pub session: Option<ConsentRequestSession>,
}

/// A Hydra logout request (RP-initiated logout).
#[derive(Debug)]
pub struct LogoutRequest {
    pub challenge: String,
    /// The Kratos subject (identity ID) whose session is being logged out.
    pub subject: Option<String>,
    /// The Kratos session ID, if Hydra tracked it when the user logged in.
    pub sid: Option<String>,
    /// The logout request URL as the RP sent it.
    pub request_url: Option<String>,
}

/// A flow that renders a page: its node, the status and the headers.
pub struct UiNodeResponse<U> {
    pub ui_node: Option<U>,
    pub status_code: u16,
    pub headers: HeaderMap,
}

/// A flow that answers with a status and headers only.
pub struct ActionResponse {
    pub status_code: u16,
    pub headers: HeaderMap,
}

} // verus!
