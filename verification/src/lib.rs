//! Verified core of the Ory Shield UI: the browser-facing orchestration
//! layer between Ory Kratos (self-service identity flows) and Ory Hydra
//! (OAuth2 / OIDC login and consent challenges).
use vstd::prelude::*;

pub mod text;
pub mod status;
pub mod form;
pub mod params;
pub mod domain;
pub mod errors;
pub mod requests;
pub mod kratos;
pub mod hydra;
pub mod flows;
pub mod direct;
pub mod routes_oauth2;
pub mod urls;
pub mod ui;
pub mod laws;
pub mod headers;
pub mod url_rewrite;

verus! {

} // verus!
