//! The backend's answer to one count query, and its classification.
//!
//! The wire call itself — posting the query document and reading the
//! response — is the caller's business; this module decides what a poll
//! outcome is, given what came back.

use vstd::prelude::*;

verus! {

/// A successful backend reply: how many events matched the query's filters
/// inside its time window.
#[derive(Debug, PartialEq, Eq, Structural, Clone, Copy)]
pub struct Counter {
    pub count: u32,
}

/// A failed poll, classified for logging. Either kind is recoverable and
/// costs exactly one tick of the shared error counter.
#[derive(Debug, PartialEq, Eq, Structural, Clone, Copy)]
pub enum ElkError {
    /// The request never got a response: a connection-level failure.
    Request,
    /// A response arrived but was not a success, or its body carried no
    /// readable count.
    UnexpectedResponse,
}

/// Classifies one poll's raw outcome. A transport failure is `Request`; a
/// non-success status, or a success whose body yielded no count, is
/// `UnexpectedResponse`; otherwise the reply's count is the result.
pub fn classify_response(transport_ok: bool, status_success: bool, body_count: Option<u32>) -> (r:
    Result<Counter, ElkError>)
    ensures
        !transport_ok ==> r == Err::<Counter, ElkError>(ElkError::Request),
        transport_ok && !status_success ==> r == Err::<Counter, ElkError>(
            ElkError::UnexpectedResponse,
        ),
        transport_ok && status_success && body_count is None ==> r == Err::<Counter, ElkError>(
            ElkError::UnexpectedResponse,
        ),
        transport_ok && status_success ==> (body_count matches Some(c) ==> r == Ok::<
            Counter,
            ElkError,
        >((Counter { count: c }))),
{
    if !transport_ok {
        Err(ElkError::Request)
    } else if !status_success {
        Err(ElkError::UnexpectedResponse)
    } else {
        match body_count {
            Some(c) => Ok(Counter { count: c }),
            None => Err(ElkError::UnexpectedResponse),
        }
    }
}

} // verus!
