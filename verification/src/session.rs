//! The session: the mutable bundle of credentials and tokens tied to one user.

use vstd::prelude::*;

verus! {

/// Seconds an access token stays valid after issue, unless a session says otherwise.
pub const DEFAULT_ACCESS_TOKEN_LIFETIME_SECS: u64 = 86400;

/// Seconds a caller should wait between two poll attempts of the handshake.
pub const POLL_BACKOFF_SECS: u64 = 5;

/// One logical session: credentials, current tokens, user identifier and
/// refresh timing. Timestamps are in seconds. The handshake and the refresh
/// policy are the only operations meant to mutate it, one at a time.
pub struct Session {
    /// User-supplied address; not changed after construction.
    pub email: String,
    /// Constant identifying the client platform.
    pub device_type: String,
    /// Language tag sent with every request.
    pub language: String,
    /// Short-lived credential authorizing item-search requests.
    pub access_token: Option<String>,
    /// Longer-lived credential used to renew the access token silently.
    pub refresh_token: Option<String>,
    /// Server-side identifier of the user, from the first successful handshake.
    pub user_id: Option<String>,
    /// Anti-bot cookie captured from server responses, carried on later requests.
    pub datadome_cookie: Option<String>,
    /// Seconds timestamp of the latest token issue; set exactly with the token.
    pub token_issued_at: Option<u64>,
    /// Seconds an access token of this session is considered valid.
    pub access_token_lifetime: u64,
}

impl Session {
    /// Well-formedness: the two tokens are set together by the same operation,
    /// and an issue time exists exactly when an access token does.
    pub open spec fn wf(self) -> bool {
        &&& self.access_token is Some <==> self.refresh_token is Some
        &&& self.token_issued_at is Some <==> self.access_token is Some
    }

    /// A fresh, unauthenticated session for one user: only the identity
    /// fields are populated, and the default token lifetime applies.
    pub fn new(email: String, device_type: String, language: String) -> (s: Session)
        ensures
            s.wf(),
            s.email == email,
            s.device_type == device_type,
            s.language == language,
            s.access_token is None,
            s.refresh_token is None,
            s.user_id is None,
            s.datadome_cookie is None,
            s.token_issued_at is None,
            s.access_token_lifetime == DEFAULT_ACCESS_TOKEN_LIFETIME_SECS,
    {
        Session {
            email,
            device_type,
            language,
            access_token: None,
            refresh_token: None,
            user_id: None,
            datadome_cookie: None,
            token_issued_at: None,
            access_token_lifetime: DEFAULT_ACCESS_TOKEN_LIFETIME_SECS,
        }
    }
}

} // verus!
