//! A member editing their own directory profile.
use vstd::prelude::*;
use crate::config::SLSMEMBER;
use crate::reply::{Data, Endpoint, Reply, Rejection, Response, Step, fails_with, failure, finish, reject,
    rejection_for};

verus! {

/// The profile fields a member may change.
#[derive(Clone, Debug)]
pub struct SlsMemberProfileUpdate {
    pub email: String,
    pub phone_number: String,
    pub url: String,
    pub introduction: String,
    pub paper_years: Vec<String>,
    pub papers: Vec<Vec<String>>,
}

/// Raised when updating the profile fails.
#[derive(Debug)]
pub struct FailedToSubmitSlsMemberProfileUpdate(pub String);

pub const REASON_NOT_A_MEMBER: &'static str = "用户非山林寺成员";

/// The answer once the profile of the member named `name` is updated.
pub fn profile_updated(written: Result<(), String>, name: String) -> (r: Response)
    ensures
        match written {
            Ok(_) => r == Ok::<Reply, Rejection>(Reply::Success(Data::MemberName(name))),
            Err(e) => r == Err::<Reply, Rejection>(rejection_for(Endpoint::SubmitSlsMemberProfileUpdate, e)),
        },
{
    finish(Endpoint::SubmitSlsMemberProfileUpdate, written, Data::MemberName(name))
}

/// The answer when no directory category lists the signed-in student.
pub fn not_a_member() -> (r: Response)
    ensures
        fails_with(r, REASON_NOT_A_MEMBER@),
{
    failure(REASON_NOT_A_MEMBER)
}

/// The search for the signed-in student's directory entry after looking in
/// one category (the categories are searched in the order of
/// `sls_member_categories`): a found entry is the one to update; a failed
/// lookup ends the request with its error; otherwise the search goes on to
/// the next category (`None`).
pub fn profile_owner_in_category(lookup: Result<Option<SLSMEMBER>, String>) -> (r: Option<Step<SLSMEMBER>>)
    ensures
        match lookup {
            Ok(Some(m)) => r == Some(Step::<SLSMEMBER>::Next(m)),
            Ok(None) => r is None,
            Err(e) => r == Some(Step::<SLSMEMBER>::Done(
                Err(rejection_for(Endpoint::SubmitSlsMemberProfileUpdate, e)),
            )),
        },
{
    match lookup {
        Ok(Some(m)) => Some(Step::Next(m)),
        Ok(None) => None,
        Err(e) => Some(Step::Done(Err(reject(Endpoint::SubmitSlsMemberProfileUpdate, e)))),
    }
}

/// The directory entry after the update: email, phone number, page,
/// introduction, paper years and papers come from `update`; name,
/// description, picture and id stay as they were.
pub fn profile_after(member: SLSMEMBER, update: SlsMemberProfileUpdate) -> (r: SLSMEMBER)
    ensures
        r.email == update.email,
        r.phone_number == update.phone_number,
        r.url == update.url,
        r.introduction == update.introduction,
        r.paper_years == update.paper_years,
        r.papers == update.papers,
        r.name == member.name,
        r.description == member.description,
        r.image == member.image,
        r.student_id == member.student_id,
{
    SLSMEMBER {
        name: member.name,
        description: member.description,
        image: member.image,
        student_id: member.student_id,
        introduction: update.introduction,
        email: update.email,
        phone_number: update.phone_number,
        papers: update.papers,
        paper_years: update.paper_years,
        url: update.url,
    }
}

} // verus!
