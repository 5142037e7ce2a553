//! The errors of the flows, of the identity and OIDC services, and of the
//! application. Errors of outside libraries are held as their message.
use vstd::prelude::*;

verus! {

/// Errors of the identity (Kratos) service.
#[derive(Debug)]
pub enum IdentityError {
    IncorrectFlowIdFormat(String),
    IncorrectErrorIdFormat(String),
    HttpMiddleware(String),
    HttpClient(String),
    RetrieveRequest(String),
    PostFlow(String),
    FlowDeserialize(String),
    Unauthorized(String),
    CheckSession(String),
    RetrieveError(String),
    RetrieveLogout(String),
}

pub type IdentityResult<T> = Result<T, IdentityError>;

/// Errors of the OIDC (Hydra) service.
#[derive(Debug)]
pub enum OidcError {
    HttpClient(String),
    HttpMiddleware(String),
    RetrieveRequest(String),
    AcceptRequest(String),
}

pub type OidcResult<T> = Result<T, OidcError>;

/// Errors of the flow handlers.
#[derive(Debug)]
pub enum FlowError {
    HttpClient(String),
    Identity(IdentityError),
    Oidc(OidcError),
    LoginChallenge(String),
    ConsentChallenge(String),
    Subject(String),
    HeaderValueParse,
}

pub type FlowResult<T> = Result<T, FlowError>;

/// The kinds of `url::ParseError`.
#[derive(Clone, Copy, Debug, PartialEq, Eq, Structural)]
pub enum UrlError {
    EmptyHost,
    IdnaError,
    InvalidPort,
    InvalidIpv4Address,
    InvalidIpv6Address,
    InvalidDomainCharacter,
    RelativeUrlWithoutBase,
    RelativeUrlWithCannotBeABaseBase,
    SetHostOnCannotBeABaseUrl,
    Overflow,
    Other,
}

/// Errors of the application, as the browser sees them.
#[derive(Debug)]
pub enum AppError {
    Kratos(String),
    Hydra(String),
    Serialization(String),
    Network(String),
    Internal(String),
    Unauthorized(String),
    NotFound(String),
    Io(String),
    Url(UrlError),
}

pub type AppResult<T> = Result<T, AppError>;

impl FlowError {
    /// `From<IdentityError>`.
    pub fn from_identity(e: IdentityError) -> (f: FlowError)
        ensures
            f == FlowError::Identity(e),
    {
        FlowError::Identity(e)
    }

    /// `From<OidcError>`.
    pub fn from_oidc(e: OidcError) -> (f: FlowError)
        ensures
            f == FlowError::Oidc(e),
    {
        FlowError::Oidc(e)
    }
}

/// The status and the browser-safe message of an application error.
pub open spec fn spec_error_status(e: AppError) -> u16 {
    match e {
        AppError::Unauthorized(_) => 401,
        AppError::NotFound(_) => 404,
        AppError::Kratos(_) | AppError::Hydra(_) => 502,
        _ => 500,
    }
}

pub open spec fn spec_error_message(e: AppError) -> Seq<char> {
    match e {
        AppError::Unauthorized(m) => m@,
        AppError::NotFound(m) => m@,
        AppError::Kratos(_) => "Upstream Ory Kratos service error occurred. Please try again."@,
        AppError::Hydra(_) => "Upstream Ory Hydra service error occurred. Please try again."@,
        _ => "An internal server error occurred."@,
    }
}

impl AppError {
    /// The response status for this error: 401 for `Unauthorized`, 404 for
    /// `NotFound`, 502 for upstream Kratos or Hydra errors, 500 otherwise.
    pub fn status(&self) -> (s: u16)
        ensures
            s == spec_error_status(*self),
    {
        match self {
            AppError::Unauthorized(_) => 401,
            AppError::NotFound(_) => 404,
            AppError::Kratos(_) | AppError::Hydra(_) => 502,
            _ => 500,
        }
    }

    /// The message shown to the browser: the detail of `Unauthorized` and
    /// `NotFound`, a fixed text otherwise, so that upstream and internal
    /// details stay on the server.
    pub fn public_message(&self) -> (m: String)
        ensures
            m@ == spec_error_message(*self),
    {
        match self {
            AppError::Unauthorized(msg) => msg.clone(),
            AppError::NotFound(msg) => msg.clone(),
            AppError::Kratos(_) => "Upstream Ory Kratos service error occurred. Please try again.".to_owned(),
            AppError::Hydra(_) => "Upstream Ory Hydra service error occurred. Please try again.".to_owned(),
            _ => "An internal server error occurred.".to_owned(),
        }
    }
}

} // verus!
