use vstd::prelude::*;

verus! {

/// Why a worker activation did not complete its work.
///
/// The fetch codes each name one point of the fetch where it can fail, so
/// that a failure can be told apart without further context.
#[derive(Clone, Copy, Debug, PartialEq, Eq)]
pub enum Error {
    /// No local signing account, or the pool refused a signed submission.
    SignedSubmitNumberError,
    /// The pool refused an unsigned submission.
    UnsignedSubmitNumberError,
    /// Issuing the request failed at one of the stages below.
    HttpFetchingError0,
    /// The response body is not UTF-8.
    HttpFetchingError1,
    /// The response body does not hold the expected JSON fields.
    HttpFetchingError2,
    /// The header value from the task queue is not UTF-8.
    HttpFetchingError3,
    /// The endpoint is not UTF-8.
    HttpFetchingError4,
    /// The header could not be attached to the request.
    HttpFetchingError5,
    /// The request could not be sent.
    HttpFetchingError6,
    /// The deadline passed while waiting for the response.
    HttpFetchingError7,
    /// The transport reported an error for the response.
    HttpFetchingError8,
    /// The response status is not 200.
    HttpFetchingError9,
    /// Another worker holds the fetch lock, or the lock is unreadable.
    AlreadyFetched,
}

/// Why the ledger refused a dispatched call.
#[derive(Clone, Copy, Debug, PartialEq, Eq)]
pub enum DispatchError {
    /// The call came from an origin that it does not accept.
    BadOrigin,
}

} // verus!
