//! Removing comments, for administrators.
use vstd::prelude::*;
use crate::reply::{Data, Endpoint, Reply, Rejection, Response, Step, fails_with, failure, finish,
    rejection_for};

verus! {

/// The comments to remove.
#[derive(Clone, Debug)]
pub struct CommentRemoving {
    pub comment_ids: Vec<String>,
}

/// Raised when removing comments fails.
#[derive(Debug)]
pub struct FailedToSubmitCommentRemoving(pub String);

pub const REASON_MISSING_COMMENTS: &'static str = "不能删除不存在的评论";

/// Comments are removed only when the lookup found as many comments as ids
/// were sent.
pub fn removal_allowed(found: usize, removing: &CommentRemoving) -> (r: Step<()>)
    ensures
        found == removing.comment_ids.len() ==> r == Step::<()>::Next(()),
        found != removing.comment_ids.len() ==> (r matches Step::Done(resp) && fails_with(
            resp,
            REASON_MISSING_COMMENTS@,
        )),
{
    if found == removing.comment_ids.len() {
        Step::Next(())
    } else {
        Step::Done(failure(REASON_MISSING_COMMENTS))
    }
}

/// The answer once the comments are removed.
pub fn comments_removed(written: Result<(), String>) -> (r: Response)
    ensures
        match written {
            Ok(_) => r == Ok::<Reply, Rejection>(Reply::Success(Data::Empty)),
            Err(e) => r == Err::<Reply, Rejection>(rejection_for(Endpoint::SubmitCommentRemoving, e)),
        },
{
    finish(Endpoint::SubmitCommentRemoving, written, Data::Empty)
}

} // verus!
