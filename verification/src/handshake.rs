//! The authentication handshake: classifying the initiation answer, the
//! bounded poll loop, and the token issue it performs on the session.

use vstd::prelude::*;

use crate::error::TgtgError;
use crate::json::{extract_str_field, extract_user_id_field, json_str_field, json_user_id_field};
use crate::session::Session;

verus! {

/// Maximum number of poll attempts in one handshake.
pub const MAX_POLLING_TRIES: usize = 24;

/// The decoded answer of the "authenticate by email" endpoint.
pub struct InitiateResponse {
    /// HTTP status of the answer.
    pub status: u16,
    /// The `state` field of the body, when the body is JSON with such a string field.
    pub state: Option<String>,
    /// The polling identifier, present only while the server waits for the
    /// email confirmation.
    pub polling_id: Option<String>,
    /// The raw body, kept for diagnostics.
    pub body: String,
}

/// The decoded answer of one attempt against the "poll by id" endpoint.
pub struct PollResponse {
    /// HTTP status of the answer.
    pub status: u16,
    /// The `access_token` field of the body.
    pub access_token: Option<String>,
    /// The `refresh_token` field of the body.
    pub refresh_token: Option<String>,
    /// The nested `startup_data.user.user_id` field of the body.
    pub user_id: Option<String>,
    /// The raw body, kept for diagnostics.
    pub body: String,
}

/// Decodes an initiation answer into its typed schema, once.
pub fn decode_initiate_response(status: u16, body: String) -> (r: InitiateResponse)
    ensures
        r.status == status,
        r.state.deep_view() == json_str_field(body@, "state"@),
        r.polling_id.deep_view() == json_str_field(body@, "polling_id"@),
        r.body == body,
{
    let state = extract_str_field(body.as_str(), "state");
    let polling_id = extract_str_field(body.as_str(), "polling_id");
    InitiateResponse { status, state, polling_id, body }
}

/// Decodes a poll answer into its typed schema, once.
pub fn decode_poll_response(status: u16, body: String) -> (r: PollResponse)
    ensures
        r.status == status,
        r.access_token.deep_view() == json_str_field(body@, "access_token"@),
        r.refresh_token.deep_view() == json_str_field(body@, "refresh_token"@),
        r.user_id.deep_view() == json_user_id_field(body@),
        r.body == body,
{
    let access_token = extract_str_field(body.as_str(), "access_token");
    let refresh_token = extract_str_field(body.as_str(), "refresh_token");
    let user_id = extract_user_id_field(body.as_str());
    PollResponse { status, access_token, refresh_token, user_id, body }
}

/// What the handshake should do after the initiation answer.
pub enum InitiateOutcome {
    /// The server waits for the email confirmation: poll with this identifier.
    Proceed { polling_id: String },
    /// An OK answer in an unrecognized state: treated as success with nothing
    /// further to do (forward-compatibility escape hatch).
    AlreadyComplete,
}

/// Whether the `state` field of an initiation answer holds exactly `s`.
pub open spec fn state_is(r: InitiateResponse, s: Seq<char>) -> bool {
    r.state matches Some(st) && st@ == s
}

/// String equality by contents.
fn str_eq(a: &str, b: &str) -> (r: bool)
    ensures
        r == (a@ == b@),
{
    let x: String = a.to_owned();
    let y: String = b.to_owned();
    x == y
}

/// Classifies the initiation answer (the handshake's first step).
///
/// An OK answer whose body has no readable `state`, or one that says to wait
/// but carries no polling identifier, is unusable and is reported as a server
/// error carrying the raw body.
pub fn decide_initiate(r: &InitiateResponse) -> (out: Result<InitiateOutcome, TgtgError>)
    ensures
        r.status != 200 ==> (out matches Err(TgtgError::ServerError { status, body })
            && status == r.status && body == r.body),
        r.status == 200 && state_is(*r, "TERMS"@) ==> out matches Err(TgtgError::NotLinked),
        r.status == 200 && state_is(*r, "WAIT"@) ==> (
            r.polling_id matches Some(p) ==> (
                out matches Ok(InitiateOutcome::Proceed { polling_id }) && polling_id == p
            )
        ),
        r.status == 200 && state_is(*r, "WAIT"@) && r.polling_id is None ==> (
            out matches Err(TgtgError::ServerError { status, body })
            && status == 200 && body == r.body
        ),
        r.status == 200 && r.state is None ==> (
            out matches Err(TgtgError::ServerError { status, body })
            && status == 200 && body == r.body
        ),
        r.status == 200 ==> (
            r.state matches Some(st) && st@ != "TERMS"@ && st@ != "WAIT"@ ==>
                out matches Ok(InitiateOutcome::AlreadyComplete)
        ),
{
    proof {
        // The two recognized states must be known to differ.
        reveal_strlit("TERMS");
        reveal_strlit("WAIT");
        assert("TERMS"@.len() == 5);
        assert("WAIT"@.len() == 4);
    }
    if r.status != 200 {
        return Err(TgtgError::ServerError { status: r.status, body: r.body.clone() });
    }
    match &r.state {
        None => Err(TgtgError::ServerError { status: 200, body: r.body.clone() }),
        Some(st) => {
            if str_eq(st.as_str(), "TERMS") {
                Err(TgtgError::NotLinked)
            } else if str_eq(st.as_str(), "WAIT") {
                match &r.polling_id {
                    Some(p) => Ok(InitiateOutcome::Proceed { polling_id: p.clone() }),
                    None => Err(TgtgError::ServerError { status: 200, body: r.body.clone() }),
                }
            } else {
                Ok(InitiateOutcome::AlreadyComplete)
            }
        },
    }
}

/// A poll answer that grants tokens: an OK status with all three fields present.
pub open spec fn poll_grant(r: PollResponse) -> bool {
    r.status == 200 && r.access_token is Some && r.refresh_token is Some && r.user_id is Some
}

/// What a full run of the poll loop amounts to, as a value.
pub enum PollModel {
    /// Tokens issued: the loop succeeds with exactly these values.
    Granted { access: Seq<char>, refresh: Seq<char>, user: Seq<char> },
    /// A decisive bad answer: a status other than 200 or 202, or an OK answer
    /// with a token field missing.
    Refused { status: u16, body: Seq<char> },
    /// Every attempt was answered "still waiting".
    TimedOut,
    /// The answers ran out before a decision: the transport gave no reply.
    Unanswered,
}

/// The outcome of polling against the given answers with `attempts` tries left.
pub open spec fn poll_model_from(rs: Seq<PollResponse>, attempts: nat) -> PollModel
    decreases attempts,
{
    if attempts == 0 {
        PollModel::TimedOut
    } else if rs.len() == 0 {
        PollModel::Unanswered
    } else if rs[0].status == 202 {
        poll_model_from(rs.drop_first(), (attempts - 1) as nat)
    } else if poll_grant(rs[0]) {
        PollModel::Granted {
            access: rs[0].access_token->Some_0@,
            refresh: rs[0].refresh_token->Some_0@,
            user: rs[0].user_id->Some_0@,
        }
    } else {
        PollModel::Refused { status: rs[0].status, body: rs[0].body@ }
    }
}

/// The outcome of one handshake's poll loop against the given answers.
pub open spec fn poll_model(rs: Seq<PollResponse>) -> PollModel {
    poll_model_from(rs, MAX_POLLING_TRIES as nat)
}

/// The session as it stands right after tokens are granted at `now`.
pub open spec fn granted_session(s: Session, r: PollResponse, now: u64) -> Session {
    Session {
        access_token: r.access_token,
        refresh_token: r.refresh_token,
        user_id: r.user_id,
        token_issued_at: Some(now),
        ..s
    }
}

/// Progress of one poll attempt that is not a terminal failure.
#[derive(Clone, Copy, Debug, PartialEq, Eq, Structural)]
pub enum PollProgress {
    /// The server has not yet seen the confirmation: back off, then retry.
    Pending,
    /// Tokens were issued and written into the session.
    Granted,
}

/// Applies one poll answer to the session.
///
/// 202 means "still waiting" and never counts as success or failure on its
/// own; an OK answer with all fields writes the tokens and `now` as the issue
/// time; anything else, an OK answer with a missing field included, is a
/// decisive failure and changes nothing.
pub fn apply_poll_response(session: &mut Session, r: &PollResponse, now: u64) -> (out: Result<
    PollProgress,
    TgtgError,
>)
    requires
        old(session).wf(),
    ensures
        final(session).wf(),
        r.status == 202 ==> (out matches Ok(PollProgress::Pending) && *final(session) == *old(
            session,
        )),
        poll_grant(*r) ==> (out matches Ok(PollProgress::Granted) && *final(session)
            == granted_session(*old(session), *r, now)),
        r.status != 202 && !poll_grant(*r) ==> (out matches Err(TgtgError::ServerError {
            status,
            body,
        }) && status == r.status && body == r.body && *final(session) == *old(session)),
{
    if r.status == 202 {
        return Ok(PollProgress::Pending);
    }
    if r.status == 200 {
        match (&r.access_token, &r.refresh_token, &r.user_id) {
            (Some(a), Some(t), Some(u)) => {
                session.access_token = Some(a.clone());
                session.refresh_token = Some(t.clone());
                session.user_id = Some(u.clone());
                session.token_issued_at = Some(now);
                return Ok(PollProgress::Granted);
            },
            _ => {},
        }
    }
    Err(TgtgError::ServerError { status: r.status, body: r.body.clone() })
}

/// How a poll outcome must show in the loop's result and in the session.
pub open spec fn poll_outcome_holds(
    m: PollModel,
    out: Result<(), TgtgError>,
    pre: Session,
    post: Session,
    now: u64,
) -> bool {
    match m {
        PollModel::Granted { access, refresh, user } => {
            &&& out is Ok
            &&& post.access_token matches Some(a) && a@ == access
            &&& post.refresh_token matches Some(t) && t@ == refresh
            &&& post.user_id matches Some(u) && u@ == user
            &&& post.token_issued_at == Some(now)
            &&& post.email == pre.email
            &&& post.device_type == pre.device_type
            &&& post.language == pre.language
            &&& post.datadome_cookie == pre.datadome_cookie
            &&& post.access_token_lifetime == pre.access_token_lifetime
        },
        PollModel::Refused { status, body } => {
            &&& out matches Err(TgtgError::ServerError { status: s, body: b }) && s == status
                && b@ == body
            &&& post == pre
        },
        PollModel::TimedOut => {
            &&& out matches Err(TgtgError::PollTimeout)
            &&& post == pre
        },
        PollModel::Unanswered => {
            &&& out matches Err(TgtgError::TransportError)
            &&& post == pre
        },
    }
}

/// Runs the poll loop against the answers the transport produced, one per
/// attempt, at most [`MAX_POLLING_TRIES`] of them; stops at the first
/// decisive answer, and the remaining attempts are not consumed.
///
/// The result and the session afterwards are exactly what [`poll_model`] of
/// the answers demands: a grant writes its tokens with `now` as the issue
/// time, and every other outcome leaves the session unchanged.
pub fn run_poll(session: &mut Session, responses: &Vec<PollResponse>, now: u64) -> (out: Result<
    (),
    TgtgError,
>)
    requires
        old(session).wf(),
    ensures
        final(session).wf(),
        poll_outcome_holds(poll_model(responses@), out, *old(session), *final(session), now),
{
    let mut i: usize = 0;
    proof {
        assert(responses@.skip(0) =~= responses@);
    }
    while i < MAX_POLLING_TRIES
        invariant
            old(session).wf(),
            *session == *old(session),
            0 <= i <= MAX_POLLING_TRIES,
            i <= responses@.len(),
            poll_model(responses@) == poll_model_from(
                responses@.skip(i as int),
                (MAX_POLLING_TRIES - i) as nat,
            ),
        decreases MAX_POLLING_TRIES - i,
    {
        if i >= responses.len() {
            return Err(TgtgError::TransportError);
        }
        let r = &responses[i];
        proof {
            assert(responses@.skip(i as int)[0] == responses@[i as int]);
            assert(responses@.skip(i as int).drop_first() =~= responses@.skip(i as int + 1));
        }
        match apply_poll_response(session, r, now) {
            Ok(PollProgress::Pending) => {
                i = i + 1;
            },
            Ok(PollProgress::Granted) => {
                return Ok(());
            },
            Err(e) => {
                return Err(e);
            },
        }
    }
    Err(TgtgError::PollTimeout)
}

/// Runs the whole handshake decision against the answers the transport
/// produced: the initiation answer and then, when the server said to wait,
/// the poll answers, one per attempt.
///
/// When the initiation answer settles the handshake by itself — a non-OK
/// status, a `TERMS` state (account not linked), an unusable body, or an
/// unrecognized state treated as success — the session is left unchanged.
pub fn authenticate_given(
    session: &mut Session,
    init: &InitiateResponse,
    polls: &Vec<PollResponse>,
    now: u64,
) -> (out: Result<(), TgtgError>)
    requires
        old(session).wf(),
    ensures
        final(session).wf(),
        init.status != 200 ==> (out matches Err(TgtgError::ServerError { status, body })
            && status == init.status && body == init.body && *final(session) == *old(session)),
        init.status == 200 && state_is(*init, "TERMS"@) ==> (out matches Err(TgtgError::NotLinked)
            && *final(session) == *old(session)),
        init.status == 200 && init.state is None ==> (out matches Err(TgtgError::ServerError {
            status,
            body,
        }) && status == 200 && body == init.body && *final(session) == *old(session)),
        init.status == 200 && state_is(*init, "WAIT"@) && init.polling_id is None ==> (
        out matches Err(TgtgError::ServerError { status, body }) && status == 200 && body
            == init.body && *final(session) == *old(session)),
        init.status == 200 ==> (init.state matches Some(st) && st@ != "TERMS"@ && st@ != "WAIT"@
            ==> out is Ok && *final(session) == *old(session)),
        init.status == 200 && state_is(*init, "WAIT"@) && init.polling_id is Some
            ==> poll_outcome_holds(
            poll_model(polls@),
            out,
            *old(session),
            *final(session),
            now,
        ),
{
    match decide_initiate(init) {
        Err(e) => Err(e),
        Ok(InitiateOutcome::AlreadyComplete) => Ok(()),
        Ok(InitiateOutcome::Proceed { polling_id: _ }) => run_poll(session, polls, now),
    }
}

/// Shifts the poll model past a prefix of "still waiting" answers.
proof fn lemma_poll_model_skip(rs: Seq<PollResponse>, k: int, attempts: nat)
    requires
        0 <= k <= rs.len(),
        k <= attempts,
        forall|j: int| 0 <= j < k ==> rs[j].status == 202,
    ensures
        poll_model_from(rs, attempts) == poll_model_from(rs.skip(k), (attempts - k) as nat),
    decreases k,
{
    if k > 0 {
        assert(forall|j: int| 0 <= j < k - 1 ==> rs.drop_first()[j] == rs[j + 1]);
        lemma_poll_model_skip(rs.drop_first(), k - 1, (attempts - 1) as nat);
        assert(rs.drop_first().skip(k - 1) =~= rs.skip(k));
    } else {
        assert(rs.skip(0) =~= rs);
    }
}

/// Law: when the first `k` poll answers, `k` below the maximum, say "still
/// waiting" and answer `k` grants tokens, the poll outcome is success with
/// exactly the tokens of that grant — so, by [`run_poll`]'s contract, the
/// session ends holding them.
pub proof fn lemma_poll_grant_after_waits(rs: Seq<PollResponse>, k: int)
    requires
        0 <= k < MAX_POLLING_TRIES,
        k < rs.len(),
        forall|j: int| 0 <= j < k ==> rs[j].status == 202,
        poll_grant(rs[k]),
    ensures
        poll_model(rs) == (PollModel::Granted {
            access: rs[k].access_token->Some_0@,
            refresh: rs[k].refresh_token->Some_0@,
            user: rs[k].user_id->Some_0@,
        }),
{
    lemma_poll_model_skip(rs, k, MAX_POLLING_TRIES as nat);
    assert(rs.skip(k)[0] == rs[k]);
}

/// Law: when every one of the maximum number of attempts is answered "still
/// waiting", the poll outcome is a timeout — so, by [`run_poll`]'s contract,
/// the session is left unchanged and keeps no tokens.
pub proof fn lemma_poll_timeout(rs: Seq<PollResponse>)
    requires
        rs.len() >= MAX_POLLING_TRIES,
        forall|j: int| 0 <= j < MAX_POLLING_TRIES ==> rs[j].status == 202,
    ensures
        poll_model(rs) == PollModel::TimedOut,
{
    lemma_poll_model_skip(rs, MAX_POLLING_TRIES as int, MAX_POLLING_TRIES as nat);
}

} // verus!
