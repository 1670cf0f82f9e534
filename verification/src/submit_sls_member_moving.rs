//! Moving members from one directory category to another, for administrators.
use vstd::prelude::*;
use crate::reply::{Data, Endpoint, Reply, Rejection, Response, Step, fails_with, failure, finish,
    rejection_for};

verus! {

/// The members to move and the category they go to.
#[derive(Clone, Debug)]
pub struct SlsMemberMoving {
    pub sls_member_category_target: String,
    pub student_ids: Vec<String>,
}

/// Raised when moving members fails.
#[derive(Debug)]
pub struct FailedToSubmitSlsMemberMoving(pub String);

pub const REASON_MISSING_MEMBERS: &'static str = "不能转移不存在的山林寺成员";

/// Members are moved only when the lookup in the `source` category found as
/// many members as ids were sent; a move into the category they are already
/// in succeeds with nothing to write.
pub fn moving_allowed(found: usize, moving: &SlsMemberMoving, source: &String) -> (r: Step<()>)
    ensures
        found != moving.student_ids.len() ==> (r matches Step::Done(resp) && fails_with(
            resp,
            REASON_MISSING_MEMBERS@,
        )),
        found == moving.student_ids.len() && moving.sls_member_category_target@ == source@ ==> r
            == Step::<()>::Done(Ok(Reply::Success(Data::Empty))),
        found == moving.student_ids.len() && moving.sls_member_category_target@ != source@ ==> r
            == Step::<()>::Next(()),
{
    if found != moving.student_ids.len() {
        Step::Done(failure(REASON_MISSING_MEMBERS))
    } else if moving.sls_member_category_target == *source {
        Step::Done(Ok(Reply::Success(Data::Empty)))
    } else {
        Step::Next(())
    }
}

/// The answer once the members are copied to the target category and
/// removed from their old one.
pub fn members_moved(written: Result<(), String>) -> (r: Response)
    ensures
        match written {
            Ok(_) => r == Ok::<Reply, Rejection>(Reply::Success(Data::Empty)),
            Err(e) => r == Err::<Reply, Rejection>(rejection_for(Endpoint::SubmitSlsMemberMoving, e)),
        },
{
    finish(Endpoint::SubmitSlsMemberMoving, written, Data::Empty)
}

} // verus!
