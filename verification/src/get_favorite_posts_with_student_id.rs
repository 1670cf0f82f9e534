//! One page of the posts a student marked as favourite.
use vstd::prelude::*;
use crate::config::POST;
use crate::get_posts::{Paginator, PaginatorView, page_request};
use crate::number::{int_error_message, parsed_i32};
use crate::reply::{Data, Endpoint, Reply, Rejection, Response, Step, rejection_for};

verus! {

/// Which page to read: `pieces` posts per page, page number `sequence`
/// (from 1), both as decimal text.
#[derive(Clone, Debug)]
pub struct GetFavoritePostsWithStudentIdConfig {
    pub pieces: String,
    pub sequence: String,
}

/// Raised when reading the favourite posts fails.
#[derive(Debug)]
pub struct FailedToGetFavoritePostsWithStudentId(pub String);

/// The paginator for a request, or the error when its numbers do not parse.
pub fn favorites_page(config: &GetFavoritePostsWithStudentIdConfig) -> (r: Step<Paginator>)
    ensures
        match (parsed_i32(config.pieces@), parsed_i32(config.sequence@)) {
            (Ok(p), Ok(s)) => r matches Step::Next(pg) && pg@ == (PaginatorView { pieces: p, sequence: s, seen: 0 }),
            (Err(k), _) => exists|m: String| m@ == int_error_message(k) && r == Step::<Paginator>::Done(
                Err(rejection_for(Endpoint::GetFavoritePostsWithStudentId, m)),
            ),
            (Ok(_), Err(k)) => exists|m: String| m@ == int_error_message(k) && r
                == Step::<Paginator>::Done(
                Err(rejection_for(Endpoint::GetFavoritePostsWithStudentId, m)),
            ),
        },
{
    page_request(Endpoint::GetFavoritePostsWithStudentId, &config.pieces, &config.sequence)
}

/// The answer carrying the favourite posts of the page.
pub fn favorite_posts_reply(posts: Vec<POST>) -> (r: Response)
    ensures
        r == Ok::<Reply, Rejection>(Reply::Success(Data::Posts(posts))),
{
    Ok(Reply::Success(Data::Posts(posts)))
}

} // verus!
