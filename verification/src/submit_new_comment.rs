//! Commenting on a post or on a comment.
use vstd::prelude::*;
use crate::config::{COMMENT, zero_stats};
use crate::reply::{Data, Endpoint, Reply, Rejection, Response, Step, fails_with, failure, finish, reject,
    rejection, rejected_with, rejection_for};
use crate::submit_an_action::{TargetKind, target_named, REASON_NO_SUCH_TARGET, REASON_NO_SUCH_TARGET_KIND};
use crate::submit_new_post::zero_stats_value;
use crate::config::FILE;

verus! {

/// A new comment; `object_commented_on` is `post` or `comment`, `time` the
/// timestamp in seconds as decimal text.
#[derive(Clone, Debug)]
pub struct NewComment {
    pub object_commented_on: String,
    pub post_or_comment_id_commented_on: String,
    pub content: String,
    pub time: String,
    pub files: Vec<FILE>,
}

/// Raised when storing a comment fails.
#[derive(Debug)]
pub struct FailedToSubmitNewComment(pub String);

/// The comment a signed-in user writes: the request's content and files,
/// the author's id, the given time, zero counters and empty lists.
pub fn new_comment_record(comment_id: String, content: String, files: Vec<FILE>, user_id: String, time: u64) -> (r: COMMENT)
    ensures
        r.comment_id == comment_id,
        r.content == content,
        r.user_id == user_id,
        r.time == time,
        r.stat == zero_stats_value(),
        r.files == files,
        r.comment_ids@.len() == 0,
        r.watch_ids@.len() == 0,
        r.like_ids@.len() == 0,
        r.favorite_ids@.len() == 0,
{
    COMMENT {
        comment_id,
        content,
        user_id,
        time,
        stat: zero_stats(),
        files,
        comment_ids: Vec::new(),
        watch_ids: Vec::new(),
        like_ids: Vec::new(),
        favorite_ids: Vec::new(),
    }
}

/// What the stored comment answers: a post or a comment; any other kind is
/// an error.
pub fn comment_parent(object: &String) -> (r: Step<TargetKind>)
    ensures
        match target_named(object@) {
            Some(k) => r == Step::<TargetKind>::Next(k),
            None => r matches Step::Done(resp) && rejected_with(
                resp,
                Endpoint::SubmitNewComment,
                REASON_NO_SUCH_TARGET_KIND@,
            ),
        },
{
    if *object == String::from_str("post") {
        Step::Next(TargetKind::Post)
    } else if *object == String::from_str("comment") {
        Step::Next(TargetKind::Comment)
    } else {
        Step::Done(rejection(Endpoint::SubmitNewComment, REASON_NO_SUCH_TARGET_KIND))
    }
}

/// The comment ids of the answered post or comment after the new comment is
/// added, given its lookup: it must succeed and find the object.
pub fn attach_comment(found: Result<Option<Vec<String>>, String>, comment_id: String) -> (r: Step<Vec<String>>)
    ensures
        match found {
            Err(e) => r == Step::<Vec<String>>::Done(Err(rejection_for(Endpoint::SubmitNewComment, e))),
            Ok(None) => r matches Step::Done(resp) && fails_with(resp, REASON_NO_SUCH_TARGET@),
            Ok(Some(ids)) => r matches Step::Next(n) && n@ == ids@.push(comment_id),
        },
{
    match found {
        Err(e) => Step::Done(Err(reject(Endpoint::SubmitNewComment, e))),
        Ok(None) => Step::Done(failure(REASON_NO_SUCH_TARGET)),
        Ok(Some(ids)) => {
            let mut ids = ids;
            ids.push(comment_id);
            Step::Next(ids)
        },
    }
}

/// The answer once the parent lists the comment: the comment.
pub fn comment_created(written: Result<(), String>, comment: COMMENT) -> (r: Response)
    ensures
        match written {
            Ok(_) => r == Ok::<Reply, Rejection>(Reply::Success(Data::Comment(comment))),
            Err(e) => r == Err::<Reply, Rejection>(rejection_for(Endpoint::SubmitNewComment, e)),
        },
{
    finish(Endpoint::SubmitNewComment, written, Data::Comment(comment))
}

} // verus!
