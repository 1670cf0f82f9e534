//! Creating a guest account.
use vstd::prelude::*;
use crate::config::USER;
use crate::reply::{Data, Endpoint, Reply, Rejection, Response, Step, fails_with, failure, finish, reject,
    rejection_for};
use crate::submit_login_info::password_matches;
use crate::token::{Timestamp, Token, lemma_empty_token_never_valid, nanos_since_epoch, token_valid_at};

verus! {

/// A sign-up request.
#[derive(Clone, Debug)]
pub struct SignUpInfo {
    pub student_id: String,
    pub name: String,
    pub password: String,
}

/// Raised when creating the account fails.
#[derive(Debug)]
pub struct FailedToSubmitSignUpInfo(pub String);

pub const REASON_ALREADY_REGISTERED: &'static str = "该账号已注册";

/// `u` is the account that sign-up creates from `info`: its id, name and
/// password, no session (the empty token) and no SLS membership.
pub open spec fn created_from(u: USER, info: SignUpInfo) -> bool {
    &&& u.student_id == info.student_id
    &&& u.name == info.name
    &&& u.password == info.password
    &&& u.token.token@ == Seq::<char>::empty()
    &&& u.token.expires == 0
    &&& u.token.student_id_of_token@ == Seq::<char>::empty()
    &&& !u.sls_verification
}

/// The account to create, given the lookup of the id: an id already taken
/// is refused; a free id gets an account with no session and no SLS
/// membership.
pub fn signup_account(found: Result<Option<USER>, String>, info: SignUpInfo) -> (r: Step<USER>)
    ensures
        match found {
            Err(e) => r == Step::<USER>::Done(Err(rejection_for(Endpoint::SubmitSignUpInfo, e))),
            Ok(Some(_)) => r matches Step::Done(resp) && fails_with(resp, REASON_ALREADY_REGISTERED@),
            Ok(None) => r matches Step::Next(u) && created_from(u, info),
        },
{
    match found {
        Err(e) => Step::Done(Err(reject(Endpoint::SubmitSignUpInfo, e))),
        Ok(Some(_)) => Step::Done(failure(REASON_ALREADY_REGISTERED)),
        Ok(None) => Step::Next(
            USER {
                student_id: info.student_id,
                name: info.name,
                password: info.password,
                token: Token::new_empty(),
                sls_verification: false,
            },
        ),
    }
}

/// The answer once the account is stored: its id, name and password.
pub fn signup_done(written: Result<(), String>, user: USER) -> (r: Response)
    ensures
        match written {
            Ok(_) => r == Ok::<Reply, Rejection>(Reply::Success(Data::Account(
                SignUpInfo { student_id: user.student_id, name: user.name, password: user.password },
            ))),
            Err(e) => r == Err::<Reply, Rejection>(rejection_for(Endpoint::SubmitSignUpInfo, e)),
        },
{
    let info = SignUpInfo { student_id: user.student_id, name: user.name, password: user.password };
    finish(Endpoint::SubmitSignUpInfo, written, Data::Account(info))
}

/// An account fresh from sign-up is accepted at sign-in with exactly the
/// password it was created with, holds no token that the session check
/// accepts at any instant after the epoch, and is no SLS member yet.
pub proof fn lemma_new_account(u: USER, info: SignUpInfo, password: Seq<char>, now: Timestamp)
    requires
        created_from(u, info),
        nanos_since_epoch(now) > 0,
    ensures
        password_matches(u, password) <==> password == info.password@,
        !token_valid_at(u.token, now),
        !u.sls_verification,
{
    lemma_empty_token_never_valid(u.token, now);
}

} // verus!
