//! What a request is answered: a success with its data, a failure with the
//! reasons shown to the user, or a rejection raised to the HTTP layer.
use vstd::prelude::*;
use crate::config::{COMMENT, POST, SLSMEMBER, TEXT};
use crate::token::{Token, FailedToClearToken, FailedToUpdateToken, FailedToValidateToken};
use crate::get_comment_with_id::FailedToGetCommentWithId;
use crate::get_favorite_posts_with_student_id::FailedToGetFavoritePostsWithStudentId;
use crate::get_fsmap::{FailedToGetFsMap, FsMap};
use crate::get_posts::FailedToGetPosts;
use crate::get_sls_members::{FailedToGetSlsMembers, SlsMemberCards};
use crate::get_text::FailedToGetText;
use crate::read_image_files_in_folder::{FailedToReadImageFilesInFolder, ImageFile};
use crate::submit_admin_login_info::FailedToSubmitAdminLoginInfo;
use crate::submit_an_action::{Action, FailedToSubmitAnAction};
use crate::submit_change_password_info::FailedToSubmitChangePasswordInfo;
use crate::submit_comment_removing::FailedToSubmitCommentRemoving;
use crate::submit_images::FailedToSubmitImages;
use crate::submit_login_info::{
    FailedToSubmitLoginInfo, FailedToVerifySlsMember, FailedToUpdateSlsVerification,
};
use crate::submit_new_comment::FailedToSubmitNewComment;
use crate::submit_new_post::FailedToSubmitNewPost;
use crate::submit_new_sls_member::FailedToSubmitNewSlsMember;
use crate::submit_signup_info::{FailedToSubmitSignUpInfo, SignUpInfo};
use crate::submit_sls_member_moving::FailedToSubmitSlsMemberMoving;
use crate::submit_sls_member_profile_update::FailedToSubmitSlsMemberProfileUpdate;

verus! {

/// The data of a successful answer.
#[derive(Debug)]
pub enum Data {
    /// An empty text.
    Empty,
    Token(Token),
    Post(POST),
    Posts(Vec<POST>),
    Comment(COMMENT),
    Texts(Vec<TEXT>),
    SlsMember(SLSMEMBER),
    SlsMembers(SlsMemberCards),
    MemberName(String),
    Action(Action),
    /// The id, name and password of a new account.
    Account(SignUpInfo),
    Images(Vec<ImageFile>),
    FsMap(FsMap),
}

/// The body of an answer: status `SUCCESS` with data, or
/// `FAILURE_WITH_REASONS` with the reasons.
#[derive(Debug)]
pub enum Reply {
    Success(Data),
    Failure(String),
}

/// An error raised to the HTTP layer instead of an answer.
#[derive(Debug)]
pub enum Rejection {
    GetCommentWithId(FailedToGetCommentWithId),
    GetFavoritePostsWithStudentId(FailedToGetFavoritePostsWithStudentId),
    GetFsMap(FailedToGetFsMap),
    GetPosts(FailedToGetPosts),
    GetSlsMembers(FailedToGetSlsMembers),
    GetText(FailedToGetText),
    ReadImageFilesInFolder(FailedToReadImageFilesInFolder),
    SubmitAdminLoginInfo(FailedToSubmitAdminLoginInfo),
    AdminTokenGeneration(crate::submit_admin_login_info::FailedToGenerateToken),
    SubmitAnAction(FailedToSubmitAnAction),
    SubmitChangePasswordInfo(FailedToSubmitChangePasswordInfo),
    SubmitCommentRemoving(FailedToSubmitCommentRemoving),
    SubmitImages(FailedToSubmitImages),
    SubmitLoginInfo(FailedToSubmitLoginInfo),
    TokenGeneration(crate::submit_login_info::FailedToGenerateToken),
    VerifySlsMember(FailedToVerifySlsMember),
    UpdateSlsVerification(FailedToUpdateSlsVerification),
    SubmitNewComment(FailedToSubmitNewComment),
    SubmitNewPost(FailedToSubmitNewPost),
    SubmitNewSlsMember(FailedToSubmitNewSlsMember),
    SubmitSignUpInfo(FailedToSubmitSignUpInfo),
    SubmitSlsMemberMoving(FailedToSubmitSlsMemberMoving),
    SubmitSlsMemberProfileUpdate(FailedToSubmitSlsMemberProfileUpdate),
    UpdateToken(FailedToUpdateToken),
    ValidateToken(FailedToValidateToken),
    ClearToken(FailedToClearToken),
}

/// How a request ends.
pub type Response = Result<Reply, Rejection>;

/// One stage of a request: go on with a value, or end with a response.
#[derive(Debug)]
pub enum Step<T> {
    Next(T),
    Done(Response),
}

/// The service's entry points.
#[derive(Clone, Copy, Debug, PartialEq, Eq, Structural)]
pub enum Endpoint {
    GetCommentWithId,
    GetFavoritePostsWithStudentId,
    GetFsMap,
    GetPosts,
    GetSlsMembers,
    GetText,
    ReadImageFilesInFolder,
    SubmitAdminLoginInfo,
    SubmitAnAction,
    SubmitChangePasswordInfo,
    SubmitCommentRemoving,
    SubmitImages,
    SubmitLoginInfo,
    SubmitNewComment,
    SubmitNewPost,
    SubmitNewSlsMember,
    SubmitSignUpInfo,
    SubmitSlsMemberMoving,
    SubmitSlsMemberProfileUpdate,
}

/// The error an entry point raises, carrying `reason`.
pub open spec fn rejection_for(ep: Endpoint, reason: String) -> Rejection {
    match ep {
        Endpoint::GetCommentWithId => Rejection::GetCommentWithId(FailedToGetCommentWithId(reason)),
        Endpoint::GetFavoritePostsWithStudentId => Rejection::GetFavoritePostsWithStudentId(
            FailedToGetFavoritePostsWithStudentId(reason),
        ),
        Endpoint::GetFsMap => Rejection::GetFsMap(FailedToGetFsMap(reason)),
        Endpoint::GetPosts => Rejection::GetPosts(FailedToGetPosts(reason)),
        Endpoint::GetSlsMembers => Rejection::GetSlsMembers(FailedToGetSlsMembers(reason)),
        Endpoint::GetText => Rejection::GetText(FailedToGetText(reason)),
        Endpoint::ReadImageFilesInFolder => Rejection::ReadImageFilesInFolder(
            FailedToReadImageFilesInFolder(reason),
        ),
        Endpoint::SubmitAdminLoginInfo => Rejection::SubmitAdminLoginInfo(
            FailedToSubmitAdminLoginInfo(reason),
        ),
        Endpoint::SubmitAnAction => Rejection::SubmitAnAction(FailedToSubmitAnAction(reason)),
        Endpoint::SubmitChangePasswordInfo => Rejection::SubmitChangePasswordInfo(
            FailedToSubmitChangePasswordInfo(reason),
        ),
        Endpoint::SubmitCommentRemoving => Rejection::SubmitCommentRemoving(
            FailedToSubmitCommentRemoving(reason),
        ),
        Endpoint::SubmitImages => Rejection::SubmitImages(FailedToSubmitImages(reason)),
        Endpoint::SubmitLoginInfo => Rejection::SubmitLoginInfo(FailedToSubmitLoginInfo(reason)),
        Endpoint::SubmitNewComment => Rejection::SubmitNewComment(FailedToSubmitNewComment(reason)),
        Endpoint::SubmitNewPost => Rejection::SubmitNewPost(FailedToSubmitNewPost(reason)),
        Endpoint::SubmitNewSlsMember => Rejection::SubmitNewSlsMember(
            FailedToSubmitNewSlsMember(reason),
        ),
        Endpoint::SubmitSignUpInfo => Rejection::SubmitSignUpInfo(FailedToSubmitSignUpInfo(reason)),
        Endpoint::SubmitSlsMemberMoving => Rejection::SubmitSlsMemberMoving(
            FailedToSubmitSlsMemberMoving(reason),
        ),
        Endpoint::SubmitSlsMemberProfileUpdate => Rejection::SubmitSlsMemberProfileUpdate(
            FailedToSubmitSlsMemberProfileUpdate(reason),
        ),
    }
}

/// The error `ep` raises with `reason`, for instance when the database
/// cannot be reached.
pub fn reject(ep: Endpoint, reason: String) -> (r: Rejection)
    ensures
        r == rejection_for(ep, reason),
{
    match ep {
        Endpoint::GetCommentWithId => Rejection::GetCommentWithId(FailedToGetCommentWithId(reason)),
        Endpoint::GetFavoritePostsWithStudentId => Rejection::GetFavoritePostsWithStudentId(
            FailedToGetFavoritePostsWithStudentId(reason),
        ),
        Endpoint::GetFsMap => Rejection::GetFsMap(FailedToGetFsMap(reason)),
        Endpoint::GetPosts => Rejection::GetPosts(FailedToGetPosts(reason)),
        Endpoint::GetSlsMembers => Rejection::GetSlsMembers(FailedToGetSlsMembers(reason)),
        Endpoint::GetText => Rejection::GetText(FailedToGetText(reason)),
        Endpoint::ReadImageFilesInFolder => Rejection::ReadImageFilesInFolder(
            FailedToReadImageFilesInFolder(reason),
        ),
        Endpoint::SubmitAdminLoginInfo => Rejection::SubmitAdminLoginInfo(
            FailedToSubmitAdminLoginInfo(reason),
        ),
        Endpoint::SubmitAnAction => Rejection::SubmitAnAction(FailedToSubmitAnAction(reason)),
        Endpoint::SubmitChangePasswordInfo => Rejection::SubmitChangePasswordInfo(
            FailedToSubmitChangePasswordInfo(reason),
        ),
        Endpoint::SubmitCommentRemoving => Rejection::SubmitCommentRemoving(
            FailedToSubmitCommentRemoving(reason),
        ),
        Endpoint::SubmitImages => Rejection::SubmitImages(FailedToSubmitImages(reason)),
        Endpoint::SubmitLoginInfo => Rejection::SubmitLoginInfo(FailedToSubmitLoginInfo(reason)),
        Endpoint::SubmitNewComment => Rejection::SubmitNewComment(FailedToSubmitNewComment(reason)),
        Endpoint::SubmitNewPost => Rejection::SubmitNewPost(FailedToSubmitNewPost(reason)),
        Endpoint::SubmitNewSlsMember => Rejection::SubmitNewSlsMember(
            FailedToSubmitNewSlsMember(reason),
        ),
        Endpoint::SubmitSignUpInfo => Rejection::SubmitSignUpInfo(FailedToSubmitSignUpInfo(reason)),
        Endpoint::SubmitSlsMemberMoving => Rejection::SubmitSlsMemberMoving(
            FailedToSubmitSlsMemberMoving(reason),
        ),
        Endpoint::SubmitSlsMemberProfileUpdate => Rejection::SubmitSlsMemberProfileUpdate(
            FailedToSubmitSlsMemberProfileUpdate(reason),
        ),
    }
}

/// `r` is the failure answer with reasons `reason`.
pub open spec fn fails_with(r: Response, reason: Seq<char>) -> bool {
    r matches Ok(Reply::Failure(m)) && m@ == reason
}

/// `r` is the error that `ep` raises with a reason reading `reason`.
pub open spec fn rejected_with(r: Response, ep: Endpoint, reason: Seq<char>) -> bool {
    exists|s: String| s@ == reason && r == Err::<Reply, Rejection>(rejection_for(ep, s))
}

/// The failure answer with reasons `reason`.
pub fn failure(reason: &str) -> (r: Response)
    ensures
        fails_with(r, reason@),
{
    Ok(Reply::Failure(String::from_str(reason)))
}

/// The error `ep` raises with reason `reason`.
pub fn rejection(ep: Endpoint, reason: &str) -> (r: Response)
    ensures
        rejected_with(r, ep, reason@),
{
    let s = String::from_str(reason);
    let r = Err(reject(ep, s));
    assert(r == Err::<Reply, Rejection>(rejection_for(ep, s)));
    r
}

/// The answer once the last write of a request is done: success with `data`,
/// or the error of `ep` with the database's reason.
pub fn finish(ep: Endpoint, written: Result<(), String>, data: Data) -> (r: Response)
    ensures
        match written {
            Ok(_) => r == Ok::<Reply, Rejection>(Reply::Success(data)),
            Err(e) => r == Err::<Reply, Rejection>(rejection_for(ep, e)),
        },
{
    match written {
        Ok(_) => Ok(Reply::Success(data)),
        Err(e) => Err(reject(ep, e)),
    }
}

} // verus!
