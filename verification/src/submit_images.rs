//! Uploading pictures into a picture folder, for administrators.
use vstd::prelude::*;
use crate::config::DIR_STATIC;
use crate::reply::{Data, Reply, Rejection, Response};
use crate::text::push_char;

verus! {

/// Raised when an upload fails.
#[derive(Debug)]
pub struct FailedToSubmitImages(pub String);

/// Where an uploaded part is saved: `./`, the static directory, the
/// picture folder, `/` and the part's name.
pub open spec fn upload_location(folder: Seq<char>, name: Seq<char>) -> Seq<char> {
    "./"@ + DIR_STATIC@ + folder + seq!['/'] + name
}

pub fn upload_path(folder: &str, name: &str) -> (r: String)
    ensures
        r@ == upload_location(folder@, name@),
{
    let mut p = String::from_str("./");
    p.append(DIR_STATIC);
    p.append(folder);
    push_char(&mut p, '/');
    p.append(name);
    p
}

/// The answer once an upload is accepted; the parts are saved afterwards.
pub fn upload_accepted() -> (r: Response)
    ensures
        r == Ok::<Reply, Rejection>(Reply::Success(Data::Empty)),
{
    Ok(Reply::Success(Data::Empty))
}

} // verus!
