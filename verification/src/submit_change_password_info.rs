//! Changing a guest password.
use vstd::prelude::*;
use crate::config::USER;
use crate::reply::{Data, Endpoint, Reply, Rejection, Response, Step, fails_with, failure, finish, reject,
    rejection_for};
use crate::submit_login_info::{REASON_NOT_REGISTERED, password_matches};

verus! {

/// A password change request.
#[derive(Clone, Debug)]
pub struct ChangePasswordInfo {
    pub student_id: String,
    pub old_password: String,
    pub new_password: String,
}

/// Raised when changing the password fails.
#[derive(Debug)]
pub struct FailedToSubmitChangePasswordInfo(pub String);

pub const REASON_WRONG_OLD_PASSWORD: &'static str = "旧密码错误";

/// Whether the password may be changed, given the lookup of the account:
/// it must exist and the old password must match.
pub fn password_change_allowed(found: Result<Option<USER>, String>, info: &ChangePasswordInfo) -> (r: Step<()>)
    ensures
        match found {
            Err(e) => r == Step::<()>::Done(Err(rejection_for(Endpoint::SubmitChangePasswordInfo, e))),
            Ok(None) => r matches Step::Done(resp) && fails_with(resp, REASON_NOT_REGISTERED@),
            Ok(Some(u)) => if password_matches(u, info.old_password@) {
                r == Step::<()>::Next(())
            } else {
                r matches Step::Done(resp) && fails_with(resp, REASON_WRONG_OLD_PASSWORD@)
            },
        },
{
    match found {
        Err(e) => Step::Done(Err(reject(Endpoint::SubmitChangePasswordInfo, e))),
        Ok(None) => Step::Done(failure(REASON_NOT_REGISTERED)),
        Ok(Some(u)) => {
            if u.password == info.old_password {
                Step::Next(())
            } else {
                Step::Done(failure(REASON_WRONG_OLD_PASSWORD))
            }
        },
    }
}

/// The answer once the new password is stored.
pub fn password_changed(written: Result<(), String>) -> (r: Response)
    ensures
        match written {
            Ok(_) => r == Ok::<Reply, Rejection>(Reply::Success(Data::Empty)),
            Err(e) => r == Err::<Reply, Rejection>(rejection_for(Endpoint::SubmitChangePasswordInfo, e)),
        },
{
    finish(Endpoint::SubmitChangePasswordInfo, written, Data::Empty)
}

} // verus!
