use vstd::prelude::*;

verus! {

/// Whether a string is a syntactically valid absolute URL. What the URL
/// grammar admits is the parser's affair; the contracts only relate results
/// to this predicate.
pub uninterp spec fn valid_url(s: Seq<char>) -> bool;

/// Whether a string is a legal HTTP header name.
pub uninterp spec fn valid_header_name(s: Seq<char>) -> bool;

/// Whether a string is a legal HTTP header value, that is, one whose bytes
/// may go on the wire.
pub uninterp spec fn valid_header_value(s: Seq<char>) -> bool;

/// Relies on reqwest::Url::parse, which returns Ok exactly when the string
/// is a syntactically valid absolute URL; the result depends on the string
/// alone.
#[verifier::external_body]
pub(crate) fn url_is_valid(s: &str) -> (r: bool)
    ensures
        r == valid_url(s@),
{
    reqwest::Url::parse(s).is_ok()
}

/// Relies on reqwest::header::HeaderName::from_bytes, which returns Ok
/// exactly when the bytes form a legal header name; the result depends on
/// the string alone.
#[verifier::external_body]
pub(crate) fn header_name_is_valid(s: &str) -> (r: bool)
    ensures
        r == valid_header_name(s@),
{
    reqwest::header::HeaderName::from_bytes(s.as_bytes()).is_ok()
}

/// Relies on reqwest::header::HeaderValue::from_str, which returns Ok
/// exactly when the string is legal as a header value on the wire; the
/// result depends on the string alone.
#[verifier::external_body]
pub(crate) fn header_value_is_valid(s: &str) -> (r: bool)
    ensures
        r == valid_header_value(s@),
{
    reqwest::header::HeaderValue::from_str(s).is_ok()
}

} // verus!
