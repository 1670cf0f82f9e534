//! The member directory, grouped into teachers, students and graduates.
use vstd::prelude::*;
use crate::config::{DIR_SLS_MEMBERS, SLSMEMBER, static_base, static_base_url};
use crate::reply::{Data, Reply, Rejection, Response};

verus! {

/// Raised when reading the member directory fails.
#[derive(Debug)]
pub struct FailedToGetSlsMembers(pub String);

/// What the directory page shows of a member.
#[derive(Clone, Debug)]
pub struct MemberCard {
    pub name: String,
    pub description: String,
    pub image: String,
}

/// The directory, by category.
#[derive(Clone, Debug)]
pub struct SlsMemberCards {
    pub teachers: Vec<MemberCard>,
    pub students: Vec<MemberCard>,
    pub graduates: Vec<MemberCard>,
}

/// The directory categories, in the order they are read.
pub open spec fn categories() -> Seq<Seq<char>> {
    seq!["teachers"@, "students"@, "graduates"@]
}

pub fn sls_member_categories() -> (r: Vec<String>)
    ensures
        r.deep_view() == categories(),
{
    let mut v: Vec<String> = Vec::new();
    v.push(String::from_str("teachers"));
    v.push(String::from_str("students"));
    v.push(String::from_str("graduates"));
    assert(v.deep_view() =~= categories());
    v
}

/// The link to a member's picture.
pub open spec fn member_image_link(image: Seq<char>) -> Seq<char> {
    static_base() + DIR_SLS_MEMBERS@ + image
}

/// What the directory page shows of `m`.
pub fn member_card(m: SLSMEMBER) -> (r: MemberCard)
    ensures
        r.name == m.name,
        r.description == m.description,
        r.image@ == member_image_link(m.image@),
{
    let mut image = static_base_url();
    image.append(DIR_SLS_MEMBERS);
    image.append(m.image.as_str());
    MemberCard { name: m.name, description: m.description, image }
}

/// `after` is `before` with the card of `m` at the end.
pub open spec fn filed(before: Seq<MemberCard>, after: Seq<MemberCard>, m: SLSMEMBER) -> bool {
    &&& after.len() == before.len() + 1
    &&& after.drop_last() == before
    &&& after.last().name == m.name
    &&& after.last().description == m.description
    &&& after.last().image@ == member_image_link(m.image@)
}

pub struct SlsMemberCardsView {
    pub teachers: Seq<MemberCard>,
    pub students: Seq<MemberCard>,
    pub graduates: Seq<MemberCard>,
}

impl View for SlsMemberCards {
    type V = SlsMemberCardsView;

    open spec fn view(&self) -> SlsMemberCardsView {
        SlsMemberCardsView { teachers: self.teachers@, students: self.students@, graduates: self.graduates@ }
    }
}

impl SlsMemberCards {
    /// An empty directory.
    pub fn new() -> (r: SlsMemberCards)
        ensures
            r@.teachers.len() == 0,
            r@.students.len() == 0,
            r@.graduates.len() == 0,
    {
        SlsMemberCards { teachers: Vec::new(), students: Vec::new(), graduates: Vec::new() }
    }

    /// Files the card of `m` at the end of the list of `category`; an
    /// unknown category files nothing.
    pub fn file(&mut self, category: &String, m: SLSMEMBER)
        ensures
            category@ == "teachers"@ ==> final(self)@.students == old(self)@.students
                && final(self)@.graduates == old(self)@.graduates && filed(
                old(self)@.teachers,
                final(self)@.teachers,
                m,
            ),
            category@ == "students"@ ==> final(self)@.teachers == old(self)@.teachers
                && final(self)@.graduates == old(self)@.graduates && filed(
                old(self)@.students,
                final(self)@.students,
                m,
            ),
            category@ == "graduates"@ ==> final(self)@.teachers == old(self)@.teachers
                && final(self)@.students == old(self)@.students && filed(
                old(self)@.graduates,
                final(self)@.graduates,
                m,
            ),
            category@ != "teachers"@ && category@ != "students"@ && category@ != "graduates"@
                ==> final(self)@ == old(self)@,
    {
        proof {
            reveal_strlit("teachers");
            reveal_strlit("students");
            reveal_strlit("graduates");
            assert("graduates"@.len() == 9 && "teachers"@.len() == 8 && "students"@.len() == 8);
            assert("teachers"@[0] != "students"@[0]);
        }
        if *category == String::from_str("teachers") {
            let ghost before = self@.teachers;
            self.teachers.push(member_card(m));
            assert(self@.teachers.drop_last() =~= before);
        } else if *category == String::from_str("students") {
            let ghost before = self@.students;
            self.students.push(member_card(m));
            assert(self@.students.drop_last() =~= before);
        } else if *category == String::from_str("graduates") {
            let ghost before = self@.graduates;
            self.graduates.push(member_card(m));
            assert(self@.graduates.drop_last() =~= before);
        }
    }
}

/// The answer carrying the directory.
pub fn members_reply(cards: SlsMemberCards) -> (r: Response)
    ensures
        r == Ok::<Reply, Rejection>(Reply::Success(Data::SlsMembers(cards))),
{
    Ok(Reply::Success(Data::SlsMembers(cards)))
}

} // verus!
