//! Guest sign-in, and the SLS membership flag refreshed at each sign-in.
use vstd::prelude::*;
use crate::config::USER;
use crate::reply::{Data, Endpoint, Reply, Rejection, Response, Step, fails_with, failure, reject,
    rejection_for};
use crate::token::{Accounts, Timestamp, Token, TokenWrite, TIME_ERROR_REASON, expiry_for,
    sha256_digest, token_source, update_token};

verus! {

/// A sign-in request.
#[derive(Clone, Debug)]
pub struct LoginInfo {
    pub student_id: String,
    pub password: String,
}

/// Raised when the account lookup fails.
#[derive(Debug)]
pub struct FailedToSubmitLoginInfo(pub String);

/// Raised when no token can be made.
#[derive(Debug)]
pub struct FailedToGenerateToken(pub String);

/// Raised when the member directory cannot be searched.
#[derive(Debug)]
pub struct FailedToVerifySlsMember(pub String);

/// Raised when the membership flag cannot be stored.
#[derive(Debug)]
pub struct FailedToUpdateSlsVerification(pub String);

pub const REASON_NOT_REGISTERED: &'static str = "账户未注册";
pub const REASON_WRONG_PASSWORD: &'static str = "密码错误";

/// Sign-in accepts `password` for the account `u`: it is the account's
/// password, character for character.
pub open spec fn password_matches(u: USER, password: Seq<char>) -> bool {
    u.password@ == password
}

/// The account signing in, given the lookup of the id: it must exist and
/// the password must match.
pub fn sign_in_account(ep: Endpoint, found: Result<Option<USER>, String>, password: &String) -> (r: Step<USER>)
    ensures
        match found {
            Err(e) => r == Step::<USER>::Done(Err(rejection_for(ep, e))),
            Ok(None) => r matches Step::Done(resp) && fails_with(resp, REASON_NOT_REGISTERED@),
            Ok(Some(u)) => if password_matches(u, password@) {
                r == Step::<USER>::Next(u)
            } else {
                r matches Step::Done(resp) && fails_with(resp, REASON_WRONG_PASSWORD@)
            },
        },
{
    match found {
        Err(e) => Step::Done(Err(reject(ep, e))),
        Ok(None) => Step::Done(failure(REASON_NOT_REGISTERED)),
        Ok(Some(u)) => {
            if u.password == *password {
                Step::Next(u)
            } else {
                Step::Done(failure(REASON_WRONG_PASSWORD))
            }
        },
    }
}

/// The error raised when no token can be made, for guests or administrators.
pub open spec fn token_failure(ep: Endpoint, reason: String) -> Rejection {
    if ep == Endpoint::SubmitAdminLoginInfo {
        Rejection::AdminTokenGeneration(crate::submit_admin_login_info::FailedToGenerateToken(reason))
    } else {
        Rejection::TokenGeneration(FailedToGenerateToken(reason))
    }
}

/// The accounts an entry point signs into.
pub open spec fn sign_in_accounts(ep: Endpoint) -> Accounts {
    if ep == Endpoint::SubmitAdminLoginInfo {
        Accounts::Admins
    } else {
        Accounts::Guests
    }
}

/// The new session of a signed-in account when the clock reads `now`: the
/// write that stores the new token on the account.
pub fn session_for_at(ep: Endpoint, user: &USER, now: Option<Timestamp>) -> (r: Step<TokenWrite>)
    ensures
        match now {
            Some(t) => r matches Step::Next(w) && w.accounts == sign_in_accounts(ep) && w.student_id@
                == user.student_id@ && w.token.token@ == sha256_digest(token_source(user.student_id@, t.secs as nat))
                && w.token.expires == expiry_for(t) && w.token.student_id_of_token@ == user.student_id@,
            None => exists|m: String| m@ == TIME_ERROR_REASON@ && r == Step::<TokenWrite>::Done(
                Err(token_failure(ep, m)),
            ),
        },
{
    let accounts = if ep == Endpoint::SubmitAdminLoginInfo { Accounts::Admins } else { Accounts::Guests };
    let sid = user.student_id.clone();
    assert(sid@ == user.student_id@);
    match Token::new_at(sid, now) {
        Ok(token) => {
            assert(token.student_id_of_token@ == user.student_id@);
            let w = update_token(token, accounts);
            assert(w.accounts == sign_in_accounts(ep));
            Step::Next(w)
        },
        Err(m) => {
            let ghost gm = m;
            let r = if ep == Endpoint::SubmitAdminLoginInfo {
                Step::Done(Err(Rejection::AdminTokenGeneration(crate::submit_admin_login_info::FailedToGenerateToken(m))))
            } else {
                Step::Done(Err(Rejection::TokenGeneration(FailedToGenerateToken(m))))
            };
            assert(r == Step::<TokenWrite>::Done(Err(token_failure(ep, gm))));
            r
        },
    }
}

/// The new session of a signed-in account, made now.
pub fn session_for(ep: Endpoint, user: &USER) -> (r: Step<TokenWrite>)
    ensures
        r matches Step::Next(w) ==> w.accounts == sign_in_accounts(ep) && w.student_id@ == user.student_id@
            && w.token.student_id_of_token@ == user.student_id@ && exists|t: Timestamp| w.token.token@
            == sha256_digest(token_source(user.student_id@, t.secs as nat)) && w.token.expires == expiry_for(t),
        r matches Step::Done(resp) ==> exists|m: String| m@ == TIME_ERROR_REASON@ && resp == Err::<Reply, Rejection>(
            token_failure(ep, m),
        ),
{
    session_for_at(ep, user, crate::token::current_time())
}

/// After the new token was stored (or could not be).
pub fn token_stored(written: Result<(), String>) -> (r: Step<()>)
    ensures
        match written {
            Ok(_) => r == Step::<()>::Next(()),
            Err(e) => r == Step::<()>::Done(
                Err(Rejection::UpdateToken(crate::token::FailedToUpdateToken(e))),
            ),
        },
{
    match crate::token::update_token_outcome(written) {
        Ok(_) => Step::Next(()),
        Err(rej) => Step::Done(Err(rej)),
    }
}

/// The membership search after looking in one directory category: a found
/// entry settles it; a failed lookup is an error; otherwise the search goes
/// on to the next category (`None`).
pub fn membership_in_category(lookup: Result<bool, String>) -> (r: Option<Result<bool, Rejection>>)
    ensures
        match lookup {
            Ok(true) => r == Some(Ok::<bool, Rejection>(true)),
            Ok(false) => r is None,
            Err(e) => r == Some(Err::<bool, Rejection>(Rejection::VerifySlsMember(FailedToVerifySlsMember(e)))),
        },
{
    match lookup {
        Ok(true) => Some(Ok(true)),
        Ok(false) => None,
        Err(e) => Some(Err(Rejection::VerifySlsMember(FailedToVerifySlsMember(e)))),
    }
}

/// After the membership flag was stored (or could not be).
pub fn verification_stored(written: Result<(), String>) -> (r: Step<()>)
    ensures
        match written {
            Ok(_) => r == Step::<()>::Next(()),
            Err(e) => r == Step::<()>::Done(
                Err(Rejection::UpdateSlsVerification(FailedToUpdateSlsVerification(e))),
            ),
        },
{
    match written {
        Ok(_) => Step::Next(()),
        Err(e) => Step::Done(Err(Rejection::UpdateSlsVerification(FailedToUpdateSlsVerification(e)))),
    }
}

/// The answer of a successful sign-in: the new token.
pub fn signed_in(token: Token) -> (r: Response)
    ensures
        r == Ok::<Reply, Rejection>(Reply::Success(Data::Token(token))),
{
    Ok(Reply::Success(Data::Token(token)))
}

} // verus!
