//! The error taxonomy of the session core.

use vstd::prelude::*;

verus! {

/// Errors of the authentication handshake and the session-refresh policy.
///
/// Every terminal failure stops the current operation at once; a poll answer
/// of 202 is the expected "still waiting" signal and is never one of these.
/// `ServerError` carries the HTTP status and the raw response body so the
/// caller can log or display what the server actually answered.
#[derive(Clone, Debug, PartialEq, Eq)]
pub enum TgtgError {
    /// The account is not linked to the platform: terminal, not retryable.
    NotLinked,
    /// No handshake has produced tokens yet; the caller must authenticate first.
    NotAuthenticated,
    /// The refresh token was rejected; the full handshake must be rerun.
    SessionExpired,
    /// Every poll attempt was answered with "still waiting".
    PollTimeout,
    /// An unexpected status, or an unusable body, at any stage.
    ServerError { status: u16, body: String },
    /// The transport produced no response for an attempt.
    TransportError,
}

/// Errors of the item-query client.
#[derive(Clone, Debug, PartialEq, Eq)]
pub enum QueryError {
    /// The session could not be made valid; the inner error is kept unchanged.
    Auth { err: TgtgError },
    /// The search endpoint answered with a status outside the success range.
    Server { status: u16, body: String },
}

impl QueryError {
    /// Wraps a session error unchanged, as the item-query client propagates
    /// a refusal of the refresh policy without rewording it.
    pub fn from_auth(err: TgtgError) -> (q: QueryError)
        ensures
            q == (QueryError::Auth { err }),
    {
        QueryError::Auth { err }
    }
}

} // verus!
