//! Publishing a post.
use vstd::prelude::*;
use crate::config::{POST, STATS, zero_stats};
use crate::reply::{Data, Endpoint, Reply, Rejection, Response, finish, rejection_for};
use crate::config::FILE;

verus! {

/// A new post; `time` is the timestamp in seconds as decimal text.
#[derive(Clone, Debug)]
pub struct NewPost {
    pub title: String,
    pub content: String,
    pub time: String,
    pub files: Vec<FILE>,
}

/// Raised when storing a post fails.
#[derive(Debug)]
pub struct FailedToSubmitNewPost(pub String);

/// The post a signed-in user publishes: the request's title, content and
/// files, the author's id, the given time, zero counters, and no comments,
/// watchers, likes or favourites.
pub fn new_post_record(post_id: String, new_post: NewPost, user_id: String, time: u64) -> (r: POST)
    ensures
        r.post_id == post_id,
        r.title == new_post.title,
        r.content == new_post.content,
        r.user_id == user_id,
        r.time == time,
        r.stat == zero_stats_value(),
        r.files == new_post.files,
        r.comment_ids@.len() == 0,
        r.watch_ids@.len() == 0,
        r.like_ids@.len() == 0,
        r.favorite_ids@.len() == 0,
        r.category@ == Seq::<char>::empty(),
{
    POST {
        post_id,
        title: new_post.title,
        content: new_post.content,
        user_id,
        time,
        stat: zero_stats(),
        files: new_post.files,
        comment_ids: Vec::new(),
        watch_ids: Vec::new(),
        like_ids: Vec::new(),
        favorite_ids: Vec::new(),
        category: String::new(),
    }
}

/// Counters that start at zero.
pub open spec fn zero_stats_value() -> STATS {
    STATS { watch: 0, like: 0, favorite: 0, comment: 0 }
}

/// The answer once the post is stored: the post.
pub fn post_created(written: Result<(), String>, post: POST) -> (r: Response)
    ensures
        match written {
            Ok(_) => r == Ok::<Reply, Rejection>(Reply::Success(Data::Post(post))),
            Err(e) => r == Err::<Reply, Rejection>(rejection_for(Endpoint::SubmitNewPost, e)),
        },
{
    finish(Endpoint::SubmitNewPost, written, Data::Post(post))
}

} // verus!
