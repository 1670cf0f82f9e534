//! The published texts of one category.
use vstd::prelude::*;
use crate::config::TEXT;
use crate::reply::{Data, Reply, Rejection, Response};

verus! {

/// Raised when reading the texts fails.
#[derive(Debug)]
pub struct FailedToGetText(pub String);

/// The answer carrying the texts, newest first as listed.
pub fn texts_reply(texts: Vec<TEXT>) -> (r: Response)
    ensures
        r == Ok::<Reply, Rejection>(Reply::Success(Data::Texts(texts))),
{
    Ok(Reply::Success(Data::Texts(texts)))
}

} // verus!
