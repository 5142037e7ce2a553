//! Requests that the application sends to Kratos and Hydra.
use vstd::prelude::*;
use crate::headers::HeaderMap;
use crate::domain::{AcceptConsentRequest, AcceptLoginRequest, RejectRequest};

verus! {

#[derive(Clone, Copy, Debug, PartialEq, Eq, Structural)]
pub enum Method {
    Get,
    Post,
    Put,
}

/// The body of an outgoing request.
pub enum RequestBody {
    Empty,
    /// Bytes forwarded as they came from the browser.
    Raw(Vec<u8>),
    /// The JSON object `{}`.
    EmptyJsonObject,
    AcceptLogin(AcceptLoginRequest),
    AcceptConsent(AcceptConsentRequest),
    Reject(RejectRequest),
}

/// A request to send.
pub struct OutgoingRequest {
    pub method: Method,
    pub url: String,
    pub headers: HeaderMap,
    pub body: RequestBody,
}

} // verus!
