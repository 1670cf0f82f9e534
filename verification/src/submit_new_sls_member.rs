//! Adding a member to the directory, for administrators.
use vstd::prelude::*;
use crate::config::{DIR_SLS_MEMBERS, DIR_STATIC, SLSMEMBER, front_base, front_base_url};
use crate::reply::{Data, Endpoint, Reply, Rejection, Response, Step, fails_with, failure, finish, reject,
    rejection_for};
use crate::text::push_char;

verus! {

/// A member to add.
#[derive(Clone, Debug)]
pub struct NewSlsMember {
    pub name: String,
    pub student_id: String,
    pub description: String,
}

/// Raised when adding a member fails.
#[derive(Debug)]
pub struct FailedToSubmitNewSlsMember(pub String);

pub const REASON_MEMBER_EXISTS: &'static str = "该山林寺成员已注册";

/// A member may be added only when the category does not list the id yet.
pub fn member_absent(already_listed: bool) -> (r: Step<()>)
    ensures
        !already_listed ==> r == Step::<()>::Next(()),
        already_listed ==> (r matches Step::Done(resp) && fails_with(resp, REASON_MEMBER_EXISTS@)),
{
    if already_listed {
        Step::Done(failure(REASON_MEMBER_EXISTS))
    } else {
        Step::Next(())
    }
}

/// The picture file of a member: the id followed by `.png`.
pub open spec fn picture_name(student_id: Seq<char>) -> Seq<char> {
    student_id + ".png"@
}

/// Where a picture file of the directory lives.
pub open spec fn member_picture_location(file: Seq<char>) -> Seq<char> {
    "./"@ + DIR_STATIC@ + DIR_SLS_MEMBERS@ + seq!['/'] + file
}

fn picture_path(file: &str) -> (r: String)
    ensures
        r@ == member_picture_location(file@),
{
    let mut p = String::from_str("./");
    p.append(DIR_STATIC);
    p.append(DIR_SLS_MEMBERS);
    push_char(&mut p, '/');
    p.append(file);
    p
}

/// The copy that gives a new member the default picture: from
/// `default.png` to the member's own picture file.
pub fn picture_copy(student_id: &String) -> (r: (String, String))
    ensures
        r.0@ == member_picture_location(picture_name("default"@)),
        r.1@ == member_picture_location(picture_name(student_id@)),
{
    let mut default_name = String::from_str("default");
    default_name.append(".png");
    let mut own_name = String::from_str(student_id.as_str());
    own_name.append(".png");
    (picture_path(default_name.as_str()), picture_path(own_name.as_str()))
}

/// After the picture copy (or its failure).
pub fn picture_copied(copied: Result<(), String>) -> (r: Step<()>)
    ensures
        match copied {
            Ok(_) => r == Step::<()>::Next(()),
            Err(e) => r == Step::<()>::Done(Err(rejection_for(Endpoint::SubmitNewSlsMember, e))),
        },
{
    match copied {
        Ok(_) => Step::Next(()),
        Err(e) => Step::Done(Err(reject(Endpoint::SubmitNewSlsMember, e))),
    }
}

/// The page of a member on the site.
pub open spec fn member_page(student_id: Seq<char>) -> Seq<char> {
    front_base() + "sls_member/"@ + student_id
}

/// The directory entry of a new member: name, description and id as given,
/// the member's own picture, their page, and an empty profile.
pub fn new_member_record(info: NewSlsMember) -> (r: SLSMEMBER)
    ensures
        r.name == info.name,
        r.description == info.description,
        r.student_id == info.student_id,
        r.image@ == picture_name(info.student_id@),
        r.url@ == member_page(info.student_id@),
        r.introduction@.len() == 0,
        r.email@.len() == 0,
        r.phone_number@.len() == 0,
        r.papers@.len() == 0,
        r.paper_years@.len() == 0,
{
    let mut image = String::from_str(info.student_id.as_str());
    image.append(".png");
    let mut url = front_base_url();
    url.append("sls_member/");
    url.append(info.student_id.as_str());
    SLSMEMBER {
        name: info.name,
        description: info.description,
        image,
        student_id: info.student_id,
        introduction: String::new(),
        email: String::new(),
        phone_number: String::new(),
        papers: Vec::new(),
        paper_years: Vec::new(),
        url,
    }
}

/// The answer once the member is stored: the new entry.
pub fn member_created(written: Result<(), String>, member: SLSMEMBER) -> (r: Response)
    ensures
        match written {
            Ok(_) => r == Ok::<Reply, Rejection>(Reply::Success(Data::SlsMember(member))),
            Err(e) => r == Err::<Reply, Rejection>(rejection_for(Endpoint::SubmitNewSlsMember, e)),
        },
{
    finish(Endpoint::SubmitNewSlsMember, written, Data::SlsMember(member))
}

} // verus!
