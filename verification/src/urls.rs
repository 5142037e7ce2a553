//! URL parsing, through the `url` crate.
use vstd::prelude::*;
use crate::form::pairs_view;
use crate::errors::{AppError, AppResult, UrlError};
use crate::url_rewrite::AppInTheMiddle;
use url::ParseError;

verus! {

/// What `url::Url::parse` gives for the text `s`: the serialization of the
/// parsed URL, or the kind of error.
pub uninterp spec fn url_parse(s: Seq<char>) -> Result<Seq<char>, UrlError>;

/// The decoded query pairs of the URL `s` (`Url::query_pairs`), when it
/// parses.
pub uninterp spec fn url_query_pairs(s: Seq<char>) -> Option<Seq<(Seq<char>, Seq<char>)>>;

/// Calls `url::Url::parse` and keeps the serialization (`Url::as_str`) or
/// the kind of `url::ParseError`; the outcome is named `url_parse`.
#[verifier::external_body]
pub(crate) fn parse_url(s: &str) -> (r: Result<String, UrlError>)
    ensures
        r is Ok <==> url_parse(s@) is Ok,
        r matches Ok(u) ==> (url_parse(s@) matches Ok(x) && x == u@),
        r matches Err(e) ==> (url_parse(s@) matches Err(k) && k == e),
{
    match url::Url::parse(s) {
        Ok(u) => Ok(u.as_str().to_owned()),
        Err(ParseError::EmptyHost) => Err(UrlError::EmptyHost),
        Err(ParseError::IdnaError) => Err(UrlError::IdnaError),
        Err(ParseError::InvalidPort) => Err(UrlError::InvalidPort),
        Err(ParseError::InvalidIpv4Address) => Err(UrlError::InvalidIpv4Address),
        Err(ParseError::InvalidIpv6Address) => Err(UrlError::InvalidIpv6Address),
        Err(ParseError::InvalidDomainCharacter) => Err(UrlError::InvalidDomainCharacter),
        Err(ParseError::RelativeUrlWithoutBase) => Err(UrlError::RelativeUrlWithoutBase),
        Err(ParseError::RelativeUrlWithCannotBeABaseBase) => Err(UrlError::RelativeUrlWithCannotBeABaseBase),
        Err(ParseError::SetHostOnCannotBeABaseUrl) => Err(UrlError::SetHostOnCannotBeABaseUrl),
        Err(ParseError::Overflow) => Err(UrlError::Overflow),
        Err(_) => Err(UrlError::Other),
    }
}

/// Calls `url::Url::parse` and `Url::query_pairs`, collecting the decoded
/// pairs as strings; the outcome is named `url_query_pairs`, present
/// exactly when the text parses.
#[verifier::external_body]
pub(crate) fn query_pairs_of(s: &str) -> (r: Option<Vec<(String, String)>>)
    ensures
        r is Some <==> url_parse(s@) is Ok,
        r is Some <==> url_query_pairs(s@) is Some,
        r matches Some(v) ==> url_query_pairs(s@) == Some(pairs_view(v@)),
{
    match url::Url::parse(s) {
        Ok(u) => Some(u.query_pairs().map(|(k, v)| (k.into_owned(), v.into_owned())).collect()),
        Err(_) => None,
    }
}

/// The URL rewriter for the configured public URLs: both must parse as
/// URLs; the rewriter holds their serializations.
pub fn app_in_the_middle(public_base_url: &str, kratos_public_url: &str) -> (r: AppResult<AppInTheMiddle>)
    ensures
        match (url_parse(public_base_url@), url_parse(kratos_public_url@)) {
            (Ok(app), Ok(kratos)) => r matches Ok(a) && a.app_url() == app && a.kratos_url() == kratos,
            (Err(e), _) => r matches Err(AppError::Url(k)) && k == e,
            (Ok(_), Err(e)) => r matches Err(AppError::Url(k)) && k == e,
        },
{
    let app_url = match parse_url(public_base_url) {
        Ok(u) => u,
        Err(e) => return Err(AppError::Url(e)),
    };
    let kratos_url = match parse_url(kratos_public_url) {
        Ok(u) => u,
        Err(e) => return Err(AppError::Url(e)),
    };
    Ok(AppInTheMiddle::new(app_url, kratos_url))
}

} // verus!
