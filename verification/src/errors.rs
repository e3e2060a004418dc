//! The error taxonomy that every flow of the engine surfaces to its caller.

use vstd::prelude::*;

verus! {

/// An error surfaced by the session/request engine.
///
/// Retried transient conditions (transport failures, HTTP 429) become
/// visible only once the retry budget is exhausted; every other error is
/// surfaced immediately.
#[derive(Debug)]
pub enum IBroadcastError {
    /// Credentials or a token refresh were rejected by the server.
    Authentication(String),
    /// The local quota is exhausted, or the server returned 429 past the
    /// retry budget.
    RateLimitExceeded,
    /// A transport-level failure remained after exhausting retries.
    Network(String),
    /// The server rejected the request for a reason other than
    /// authentication or rate limiting; never retried.
    Api(String),
    /// A response body did not match the expected shape; never retried.
    InvalidResponse(String),
    /// A token-requiring call was made with no token present; fails before
    /// any network attempt.
    NotLoggedIn,
}

/// The mathematical shape of an [`IBroadcastError`]: each message as a
/// sequence of characters.
pub enum ErrorV {
    Authentication(Seq<char>),
    RateLimitExceeded,
    Network(Seq<char>),
    Api(Seq<char>),
    InvalidResponse(Seq<char>),
    NotLoggedIn,
}

impl View for IBroadcastError {
    type V = ErrorV;

    open spec fn view(&self) -> ErrorV {
        match self {
            IBroadcastError::Authentication(m) => ErrorV::Authentication(m@),
            IBroadcastError::RateLimitExceeded => ErrorV::RateLimitExceeded,
            IBroadcastError::Network(m) => ErrorV::Network(m@),
            IBroadcastError::Api(m) => ErrorV::Api(m@),
            IBroadcastError::InvalidResponse(m) => ErrorV::InvalidResponse(m@),
            IBroadcastError::NotLoggedIn => ErrorV::NotLoggedIn,
        }
    }
}

} // verus!
