use vstd::prelude::*;

verus! {

/// The one error type every operation of the client returns.
///
/// Callers tell the kinds apart by inspecting the value, not by catching
/// differently shaped failures: `Url` and `Header` are construction errors
/// (the request was never sent), `Transport` covers every failure of the
/// exchange itself (connection, DNS, timeout), and `Status` carries the
/// code of a response that arrived but lies outside the success range.
#[derive(Debug, Clone, PartialEq, Eq)]
pub enum HttpError {
    /// The target was not a syntactically valid absolute URL.
    Url,
    /// The named header has a name or value that cannot go on the wire.
    Header { name: String },
    /// The exchange failed before a response arrived; the message is the
    /// transport's description. A timeout is not told apart from the rest.
    Transport { message: String },
    /// A response arrived, but its status code lies outside 200..=299.
    Status { code: u16 },
}

impl HttpError {
    /// True exactly of the errors raised while the request was being built.
    pub fn is_construction_error(&self) -> (r: bool)
        ensures
            r == (self is Url || self is Header),
    {
        match self {
            HttpError::Url => true,
            HttpError::Header { .. } => true,
            _ => false,
        }
    }

    /// True exactly of failures of the exchange itself.
    pub fn is_transport_error(&self) -> (r: bool)
        ensures
            r == (self is Transport),
    {
        match self {
            HttpError::Transport { .. } => true,
            _ => false,
        }
    }

    /// True exactly of errors carrying a non-success status code.
    pub fn is_status_error(&self) -> (r: bool)
        ensures
            r == (self is Status),
    {
        match self {
            HttpError::Status { .. } => true,
            _ => false,
        }
    }

    /// The status code of a status error, and nothing for any other kind.
    pub fn status_code(&self) -> (r: Option<u16>)
        ensures
            (*self) matches HttpError::Status { code } ==> r == Some(code),
            !(self is Status) ==> r is None,
    {
        match self {
            HttpError::Status { code } => Some(*code),
            _ => None,
        }
    }
}

} // verus!
