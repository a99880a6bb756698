use vstd::prelude::*;

use crate::error::HttpError;

verus! {

/// What the transport hands back for one dispatched request.
#[derive(Debug)]
pub enum Outcome {
    /// A response arrived: its status code and its whole body, read as
    /// text. The body is buffered in full before it gets here.
    Completed { status: u16, body: String },
    /// No response arrived — connection, DNS or timeout failure — with the
    /// transport's description of it.
    Failed { message: String },
}

/// Spec-level: the status codes the client counts as success.
pub open spec fn success_status(code: u16) -> bool {
    200 <= code <= 299
}

/// Whether a status code lies in the success range.
pub fn is_success_status(code: u16) -> (r: bool)
    ensures
        r == success_status(code),
{
    200 <= code && code <= 299
}

/// Classifies a received response. A success status yields the body,
/// unmodified; any other status yields a status error carrying the code,
/// and the body is discarded — a non-success response never yields text.
pub fn classify(status: u16, body: String) -> (r: Result<String, HttpError>)
    ensures
        success_status(status) ==> r == Ok::<String, HttpError>(body),
        !success_status(status) ==> r == Err::<String, HttpError>(HttpError::Status { code: status }),
{
    if is_success_status(status) {
        Ok(body)
    } else {
        Err(HttpError::Status { code: status })
    }
}

/// Resolves a transport outcome into the operation's result: a completed
/// exchange is classified by its status code; a failed one — a timeout
/// among the rest — is a transport error, never a silent hang and never a
/// success.
pub fn resolve(outcome: Outcome) -> (r: Result<String, HttpError>)
    ensures
        outcome matches Outcome::Completed { status, body } ==> {
            &&& success_status(status) ==> r == Ok::<String, HttpError>(body)
            &&& !success_status(status) ==> r == Err::<String, HttpError>(
                HttpError::Status { code: status },
            )
        },
        outcome matches Outcome::Failed { message } ==> r == Err::<String, HttpError>(
            HttpError::Transport { message },
        ),
{
    match outcome {
        Outcome::Completed { status, body } => classify(status, body),
        Outcome::Failed { message } => Err(HttpError::Transport { message }),
    }
}

} // verus!
