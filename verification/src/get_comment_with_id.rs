//! Looking up one comment by its id.
use vstd::prelude::*;
use crate::config::COMMENT;
use crate::reply::{Data, Endpoint, Reply, Rejection, Response, fails_with, failure, reject, rejection_for};

verus! {

/// Raised when the comment lookup fails.
#[derive(Debug)]
pub struct FailedToGetCommentWithId(pub String);

pub const REASON_NO_SUCH_COMMENT: &'static str = "该帖子不存在";

/// The answer to a comment lookup: the comment, a failure when there is
/// none, or the error of the lookup.
pub fn comment_found(found: Result<Option<COMMENT>, String>) -> (r: Response)
    ensures
        match found {
            Err(e) => r == Err::<Reply, Rejection>(rejection_for(Endpoint::GetCommentWithId, e)),
            Ok(None) => fails_with(r, REASON_NO_SUCH_COMMENT@),
            Ok(Some(c)) => r == Ok::<Reply, Rejection>(Reply::Success(Data::Comment(c))),
        },
{
    match found {
        Err(e) => Err(reject(Endpoint::GetCommentWithId, e)),
        Ok(None) => failure(REASON_NO_SUCH_COMMENT),
        Ok(Some(c)) => Ok(Reply::Success(Data::Comment(c))),
    }
}

} // verus!
