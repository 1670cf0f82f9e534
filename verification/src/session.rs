//! The sign-in check that every session-guarded entry point runs first: a
//! token must be sent, must belong to an account, and must not have expired;
//! an expired token is cleared before the user is told to sign in again.
use vstd::prelude::*;
use crate::config::USER;
use crate::reply::{Endpoint, Response, Step, fails_with, failure, reject, rejected_with,
    rejection_for, Rejection};
use crate::token::{Accounts, Timestamp, Token, TokenWrite, FailedToClearToken, TIME_ERROR_REASON,
    clear_token, lemma_empty_token_never_valid, nanos_since_epoch, token_valid_at, validate_token};

verus! {

pub const REASON_LOGIN_FIRST: &'static str = "请登录后再试";
pub const REASON_NO_TOKEN: &'static str = "无token";
pub const REASON_LOGIN_AGAIN: &'static str = "请重新登录";
pub const REASON_TOKEN_INVALID: &'static str = "token无效";
pub const REASON_TOKEN_EXPIRED: &'static str = "用户token已过期，请重新登录";

/// The entry points that require a signed-in user.
pub open spec fn guarded(ep: Endpoint) -> bool {
    match ep {
        Endpoint::GetFsMap | Endpoint::SubmitAnAction | Endpoint::SubmitCommentRemoving
        | Endpoint::SubmitImages | Endpoint::SubmitNewComment | Endpoint::SubmitNewPost
        | Endpoint::SubmitNewSlsMember | Endpoint::SubmitSlsMemberMoving
        | Endpoint::SubmitSlsMemberProfileUpdate => true,
        _ => false,
    }
}

/// Where the accounts allowed to use `ep` are kept: administrators for the
/// administration entry points, guests otherwise.
pub open spec fn session_accounts(ep: Endpoint) -> Accounts {
    match ep {
        Endpoint::SubmitCommentRemoving | Endpoint::SubmitImages | Endpoint::SubmitNewSlsMember
        | Endpoint::SubmitSlsMemberMoving => Accounts::Admins,
        _ => Accounts::Guests,
    }
}

/// Whether `ep` words its sign-in failures as "please sign in" rather than
/// "no token" / "token invalid".
pub open spec fn asks_to_sign_in(ep: Endpoint) -> bool {
    match ep {
        Endpoint::GetFsMap | Endpoint::SubmitAnAction | Endpoint::SubmitCommentRemoving
        | Endpoint::SubmitSlsMemberMoving => true,
        _ => false,
    }
}

/// The reason given when no token was sent.
pub open spec fn missing_token_reason(ep: Endpoint) -> Seq<char> {
    if asks_to_sign_in(ep) {
        REASON_LOGIN_FIRST@
    } else {
        REASON_NO_TOKEN@
    }
}

/// The reason given when no account holds the token.
pub open spec fn unknown_token_reason(ep: Endpoint) -> Seq<char> {
    if asks_to_sign_in(ep) {
        REASON_LOGIN_AGAIN@
    } else {
        REASON_TOKEN_INVALID@
    }
}

/// The administration entry points: comment removal, picture upload, new
/// member and member moving.
pub open spec fn is_administration(ep: Endpoint) -> bool {
    ||| ep == Endpoint::SubmitCommentRemoving
    ||| ep == Endpoint::SubmitImages
    ||| ep == Endpoint::SubmitNewSlsMember
    ||| ep == Endpoint::SubmitSlsMemberMoving
}

/// Only the administration entry points look a session up among the
/// administrators; every other entry point (commenting, posting, acting,
/// the file tree, profile updates) looks it up among the guests.
pub proof fn lemma_sessions_by_entry_point(ep: Endpoint)
    ensures
        session_accounts(ep) == Accounts::Admins <==> is_administration(ep),
        session_accounts(Endpoint::SubmitNewComment) == Accounts::Guests,
        session_accounts(Endpoint::SubmitNewPost) == Accounts::Guests,
        session_accounts(Endpoint::SubmitAnAction) == Accounts::Guests,
        session_accounts(Endpoint::GetFsMap) == Accounts::Guests,
        session_accounts(Endpoint::SubmitSlsMemberProfileUpdate) == Accounts::Guests,
{
}

/// The accounts in which `ep` looks the token up.
pub fn accounts_of(ep: Endpoint) -> (r: Accounts)
    ensures
        r == session_accounts(ep),
        r == Accounts::Admins <==> is_administration(ep),
        r == Accounts::Guests <==> !is_administration(ep),
{
    match ep {
        Endpoint::SubmitCommentRemoving | Endpoint::SubmitImages | Endpoint::SubmitNewSlsMember
        | Endpoint::SubmitSlsMemberMoving => Accounts::Admins,
        _ => Accounts::Guests,
    }
}

fn signs_in(ep: Endpoint) -> (r: bool)
    ensures
        r == asks_to_sign_in(ep),
{
    match ep {
        Endpoint::GetFsMap | Endpoint::SubmitAnAction | Endpoint::SubmitCommentRemoving
        | Endpoint::SubmitSlsMemberMoving => true,
        _ => false,
    }
}

/// The first check: a token must have been sent.
pub fn require_token(ep: Endpoint, token: Option<String>) -> (r: Step<String>)
    ensures
        match token {
            Some(t) => r == Step::<String>::Next(t),
            None => r matches Step::Done(resp) && fails_with(resp, missing_token_reason(ep)),
        },
{
    match token {
        Some(t) => Step::Next(t),
        None => {
            if signs_in(ep) {
                Step::Done(failure(REASON_LOGIN_FIRST))
            } else {
                Step::Done(failure(REASON_NO_TOKEN))
            }
        },
    }
}

/// The second check, given the account lookup by token: the lookup must
/// succeed and find an account.
pub fn session_user(ep: Endpoint, found: Result<Option<USER>, String>) -> (r: Step<USER>)
    ensures
        match found {
            Err(e) => r == Step::<USER>::Done(Err(rejection_for(ep, e))),
            Ok(None) => r matches Step::Done(resp) && fails_with(resp, unknown_token_reason(ep)),
            Ok(Some(u)) => r == Step::<USER>::Next(u),
        },
{
    match found {
        Err(e) => Step::Done(Err(reject(ep, e))),
        Ok(None) => {
            if signs_in(ep) {
                Step::Done(failure(REASON_LOGIN_AGAIN))
            } else {
                Step::Done(failure(REASON_TOKEN_INVALID))
            }
        },
        Ok(Some(u)) => Step::Next(u),
    }
}

/// The outcome of the expiry check.
#[derive(Debug)]
pub enum Session {
    /// The token is current: serve the request for this account.
    Valid(USER),
    /// The token has expired: perform this write, then answer with
    /// [`session_expired`].
    Expired(TokenWrite),
    /// The check itself failed.
    Ended(Response),
}

/// `w` is the write that clears the session of `t`.
pub open spec fn clears(w: TokenWrite, t: Token) -> bool {
    &&& w.accounts == Accounts::Guests
    &&& w.student_id@ == t.student_id_of_token@
    &&& w.token.token@ == Seq::<char>::empty()
    &&& w.token.expires == 0
    &&& w.token.student_id_of_token@ == Seq::<char>::empty()
}

/// The third check, given the verdict on the account's token.
pub fn session_after_validation(ep: Endpoint, user: USER, validity: Result<bool, String>) -> (r: Session)
    ensures
        match validity {
            Err(e) => r == Session::Ended(Err(rejection_for(ep, e))),
            Ok(true) => r == Session::Valid(user),
            Ok(false) => r matches Session::Expired(w) && clears(w, user.token),
        },
{
    match validity {
        Err(e) => Session::Ended(Err(reject(ep, e))),
        Ok(true) => Session::Valid(user),
        Ok(false) => Session::Expired(clear_token(&user.token)),
    }
}

/// The third check against the current time.
pub fn check_session(ep: Endpoint, user: USER) -> (r: Session)
    ensures
        r matches Session::Valid(u) ==> u == user,
        r matches Session::Expired(w) ==> clears(w, user.token),
        r matches Session::Ended(resp) ==> rejected_with(resp, ep, TIME_ERROR_REASON@),
{
    let validity = validate_token(&user.token);
    let ghost v = validity;
    let r = session_after_validation(ep, user, validity);
    proof {
        if let Err(e) = v {
            assert(r == Session::Ended(Err(rejection_for(ep, e))));
        }
    }
    r
}

/// The answer after an expired token was cleared (or could not be).
pub fn session_expired(cleared: Result<(), String>) -> (r: Response)
    ensures
        match cleared {
            Ok(_) => fails_with(r, REASON_TOKEN_EXPIRED@),
            Err(e) => r == Err::<crate::reply::Reply, Rejection>(
                Rejection::ClearToken(FailedToClearToken(e)),
            ),
        },
{
    match cleared {
        Ok(_) => failure(REASON_TOKEN_EXPIRED),
        Err(e) => Err(Rejection::ClearToken(FailedToClearToken(e))),
    }
}

/// Once an expired session is cleared, the token left on the account is
/// accepted at no instant after the epoch: its owner must sign in again.
pub proof fn lemma_cleared_session_stays_closed(w: TokenWrite, t: Token, now: Timestamp)
    requires
        clears(w, t),
        nanos_since_epoch(now) > 0,
    ensures
        !token_valid_at(w.token, now),
{
    lemma_empty_token_never_valid(w.token, now);
}

} // verus!
