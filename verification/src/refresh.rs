//! The session-refresh policy: deciding before each authenticated call
//! whether the access token is still valid, and applying the answer of the
//! silent refresh when one was demanded.

use vstd::prelude::*;

use crate::error::TgtgError;
use crate::json::{extract_str_field, json_str_field};
use crate::session::Session;

verus! {

/// The decoded answer of the token-refresh endpoint.
pub struct RefreshResponse {
    /// HTTP status of the answer.
    pub status: u16,
    /// The `access_token` field of the body.
    pub access_token: Option<String>,
    /// A rotated refresh token, when the server sends one.
    pub refresh_token: Option<String>,
    /// The raw body, kept for diagnostics.
    pub body: String,
}

/// Decodes a refresh answer into its typed schema, once.
pub fn decode_refresh_response(status: u16, body: String) -> (r: RefreshResponse)
    ensures
        r.status == status,
        r.access_token.deep_view() == json_str_field(body@, "access_token"@),
        r.refresh_token.deep_view() == json_str_field(body@, "refresh_token"@),
        r.body == body,
{
    let access_token = extract_str_field(body.as_str(), "access_token");
    let refresh_token = extract_str_field(body.as_str(), "refresh_token");
    RefreshResponse { status, access_token, refresh_token, body }
}

/// Whether the session's access token has outlived its lifetime at `now`.
pub open spec fn token_expired(s: Session, now: u64) -> bool {
    s.token_issued_at matches Some(t) && t + s.access_token_lifetime <= now
}

/// What the policy decides for a session at `now`.
#[derive(Clone, Copy, Debug, PartialEq, Eq, Structural)]
pub enum Validity {
    /// No handshake has produced tokens: the caller must authenticate first.
    NotAuthenticated,
    /// The access token is still valid; nothing to do.
    Valid,
    /// The access token has expired: one silent refresh call is demanded.
    NeedsRefresh,
}

/// The policy's classification of a session at `now`.
pub open spec fn validity_of(s: Session, now: u64) -> Validity {
    if s.access_token is None {
        Validity::NotAuthenticated
    } else if token_expired(s, now) {
        Validity::NeedsRefresh
    } else {
        Validity::Valid
    }
}

/// Classifies the session at `now`, with no side effect.
pub fn check_validity(session: &Session, now: u64) -> (v: Validity)
    ensures
        v == validity_of(*session, now),
{
    if session.access_token.is_none() {
        return Validity::NotAuthenticated;
    }
    match session.token_issued_at {
        Some(t) => {
            if t <= now && now - t >= session.access_token_lifetime {
                Validity::NeedsRefresh
            } else {
                Validity::Valid
            }
        },
        None => Validity::Valid,
    }
}

/// The first half of `ensureValid`: decides whether the current access token
/// is valid, issuing no network action of its own.
///
/// `Ok(None)`: the token is valid, nothing to do. `Ok(Some(token))`: the
/// token has expired — the caller must post exactly one refresh carrying this
/// refresh token and apply the answer with [`apply_refresh_response`].
/// `Err(NotAuthenticated)`: no handshake has run, and no network call is to
/// be made.
pub fn ensure_valid_step(session: &Session, now: u64) -> (out: Result<Option<String>, TgtgError>)
    requires
        session.wf(),
    ensures
        validity_of(*session, now) is Valid ==> (out matches Ok(o) && o is None),
        validity_of(*session, now) is NotAuthenticated ==> out matches Err(
            TgtgError::NotAuthenticated,
        ),
        validity_of(*session, now) is NeedsRefresh ==> (out matches Ok(o) && o
            == session.refresh_token),
{
    match check_validity(session, now) {
        Validity::NotAuthenticated => Err(TgtgError::NotAuthenticated),
        Validity::Valid => Ok(None),
        Validity::NeedsRefresh => match &session.refresh_token {
            Some(rt) => Ok(Some(rt.clone())),
            None => Err(TgtgError::NotAuthenticated),
        },
    }
}

/// A refresh answer that is accepted: a success status carrying a new token.
pub open spec fn refresh_accepted(r: RefreshResponse) -> bool {
    200 <= r.status < 300 && r.access_token is Some
}

/// The session as it stands after a refresh answer is accepted at `now`: the
/// access token and the issue time are overwritten, and the refresh token is
/// rotated when the answer carries a new one.
pub open spec fn refreshed_session(s: Session, r: RefreshResponse, now: u64) -> Session {
    Session {
        access_token: r.access_token,
        refresh_token: if r.refresh_token is Some {
            r.refresh_token
        } else {
            s.refresh_token
        },
        token_issued_at: Some(now),
        ..s
    }
}

/// The session after its refresh token was rejected: both tokens and the
/// issue time cleared; the user identity is kept.
pub open spec fn cleared_session(s: Session) -> Session {
    Session { access_token: None, refresh_token: None, token_issued_at: None, ..s }
}

/// The second half of `ensureValid`, reached only when a refresh was demanded.
///
/// An accepted answer overwrites the access token and the issue time. A
/// status outside the success range means the refresh token was rejected:
/// both tokens are cleared and the caller must rerun the full handshake. A
/// success status without a token is an unusable answer and changes nothing.
pub fn apply_refresh_response(session: &mut Session, r: &RefreshResponse, now: u64) -> (out:
    Result<(), TgtgError>)
    requires
        old(session).wf(),
        old(session).access_token is Some,
    ensures
        final(session).wf(),
        refresh_accepted(*r) ==> (out is Ok && *final(session) == refreshed_session(
            *old(session),
            *r,
            now,
        )),
        !(200 <= r.status < 300) ==> (out matches Err(TgtgError::SessionExpired) && *final(session)
            == cleared_session(*old(session))),
        200 <= r.status < 300 && r.access_token is None ==> (out matches Err(
            TgtgError::ServerError { status, body },
        ) && status == r.status && body == r.body && *final(session) == *old(session)),
{
    if 200 <= r.status && r.status < 300 {
        match &r.access_token {
            Some(a) => {
                session.access_token = Some(a.clone());
                match &r.refresh_token {
                    Some(t) => {
                        session.refresh_token = Some(t.clone());
                    },
                    None => {},
                }
                session.token_issued_at = Some(now);
                Ok(())
            },
            None => Err(TgtgError::ServerError { status: r.status, body: r.body.clone() }),
        }
    } else {
        session.access_token = None;
        session.refresh_token = None;
        session.token_issued_at = None;
        Err(TgtgError::SessionExpired)
    }
}

/// Law: a session whose token was issued at least its lifetime ago demands
/// exactly one refresh, and once an accepted refresh answer is applied, the
/// policy demands none at the same instant.
pub proof fn lemma_refresh_exactly_once(s: Session, r: RefreshResponse, now: u64)
    requires
        s.wf(),
        s.access_token is Some,
        token_expired(s, now),
        refresh_accepted(r),
        s.access_token_lifetime >= 1,
    ensures
        validity_of(s, now) == Validity::NeedsRefresh,
        validity_of(refreshed_session(s, r, now), now) == Validity::Valid,
{
}

/// Law: before any handshake the policy classifies the session as not
/// authenticated, so it demands no network call at all.
pub proof fn lemma_unauthenticated_no_call(s: Session, now: u64)
    requires
        s.access_token is None,
    ensures
        validity_of(s, now) == Validity::NotAuthenticated,
{
}

} // verus!
