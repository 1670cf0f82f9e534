//! Deployment settings and the records the service keeps in its database.
use vstd::prelude::*;
use crate::text::{decimal, append_decimal, push_char};
use crate::token::Token;

verus! {

pub const SELF_PORT: u16 = 4000;
pub const SERVER_URL: &'static str = "psplhl-pc.dynv6.net";
pub const SERVER_PORT: u16 = 4000;
pub const FRONT_URL: &'static str = "psplhl-pc.dynv6.net";
pub const FRONT_PORT: u16 = 3001;
pub const MONGODB_PORT: u16 = 27017;
pub const DIR_STATIC: &'static str = "resources/";
pub const DIR_PHOTO_WALL: &'static str = "images/photo_wall/";
pub const DIR_ANNUAL: &'static str = "images/annual/";
pub const DIR_TEMP: &'static str = "images/temp/";
pub const DIR_SLS_MEMBERS: &'static str = "images/sls_members/";
pub const DIR_FILES: &'static str = "files/";
/// The shared-file area that the file tree lists, under `DIR_STATIC`.
pub const DIR_FTP: &'static str = "ftp/";
pub const API_STATUS_SUCCESS: &'static str = "SUCCESS";
pub const API_STATUS_FAILURE_WITH_REASONS: &'static str = "FAILURE_WITH_REASONS";
pub const API_STATUS_FAILURE_WITHOUT_REASONS: &'static str = "FAILURE_WITHOUT_REASONS";
/// How long a session token stays valid, in seconds.
pub const COOKIES_EXPIRES_SECONDS: u64 = 2000000;

/// The four octets of the database host's IPv4 address.
pub open spec fn mongodb_octets() -> Seq<u8> {
    seq![127u8, 0u8, 0u8, 1u8]
}

pub fn mongodb_url_octets() -> (r: [u8; 4])
    ensures
        r@ == mongodb_octets(),
{
    let r: [u8; 4] = [127u8, 0u8, 0u8, 1u8];
    assert(r@ =~= mongodb_octets());
    r
}

/// `"mongodb://a.b.c.d:port"`, the address the database client connects to.
pub open spec fn spec_mongodb_url() -> Seq<char> {
    let o = mongodb_octets();
    "mongodb://"@ + decimal(o[0] as nat) + seq!['.'] + decimal(o[1] as nat) + seq!['.']
        + decimal(o[2] as nat) + seq!['.'] + decimal(o[3] as nat) + seq![':']
        + decimal(MONGODB_PORT as nat)
}

pub fn mongodb_url() -> (r: String)
    ensures
        r@ == spec_mongodb_url(),
{
    let o = mongodb_url_octets();
    let mut s = String::from_str("mongodb://");
    append_decimal(&mut s, o[0] as u64);
    push_char(&mut s, '.');
    append_decimal(&mut s, o[1] as u64);
    push_char(&mut s, '.');
    append_decimal(&mut s, o[2] as u64);
    push_char(&mut s, '.');
    append_decimal(&mut s, o[3] as u64);
    push_char(&mut s, ':');
    append_decimal(&mut s, MONGODB_PORT as u64);
    s
}

/// `"http://SERVER_URL:SERVER_PORT/"`, the prefix of every link to a static file.
pub open spec fn static_base() -> Seq<char> {
    "http://"@ + SERVER_URL@ + seq![':'] + decimal(SERVER_PORT as nat) + seq!['/']
}

pub fn static_base_url() -> (r: String)
    ensures
        r@ == static_base(),
{
    let mut s = String::from_str("http://");
    s.append(SERVER_URL);
    push_char(&mut s, ':');
    append_decimal(&mut s, SERVER_PORT as u64);
    push_char(&mut s, '/');
    s
}

/// `"http://FRONT_URL:FRONT_PORT/"`, the prefix of every page of the site.
pub open spec fn front_base() -> Seq<char> {
    "http://"@ + FRONT_URL@ + seq![':'] + decimal(FRONT_PORT as nat) + seq!['/']
}

pub fn front_base_url() -> (r: String)
    ensures
        r@ == front_base(),
{
    let mut s = String::from_str("http://");
    s.append(FRONT_URL);
    push_char(&mut s, ':');
    append_decimal(&mut s, FRONT_PORT as u64);
    push_char(&mut s, '/');
    s
}

/// A member of the SLS group as kept in the member directory.
#[derive(Clone, Debug)]
pub struct SLSMEMBER {
    pub name: String,
    pub description: String,
    pub image: String,
    pub student_id: String,
    pub introduction: String,
    pub email: String,
    pub phone_number: String,
    pub papers: Vec<Vec<String>>,
    pub paper_years: Vec<String>,
    pub url: String,
}

/// A published text; `time` is the bit pattern of its timestamp in seconds
/// (an IEEE-754 double), carried unchanged.
#[derive(Clone, Debug)]
pub struct TEXT {
    pub text: String,
    pub time: u64,
}

/// An account, guest or administrator.
#[derive(Clone, Debug)]
pub struct USER {
    pub student_id: String,
    pub name: String,
    pub password: String,
    pub token: Token,
    pub sls_verification: bool,
}

/// A file attached to a post or a comment.
#[derive(Clone, Debug)]
pub struct FILE {
    pub category: String,
    pub name: String,
    pub display_name: String,
}

/// The counters of a post or a comment.
#[derive(Clone, Copy, Debug)]
pub struct STATS {
    pub watch: i32,
    pub like: i32,
    pub favorite: i32,
    pub comment: i32,
}

/// A forum post; `time` is the bit pattern of its timestamp in seconds
/// (an IEEE-754 double), carried unchanged.
#[derive(Clone, Debug)]
pub struct POST {
    pub post_id: String,
    pub title: String,
    pub content: String,
    pub user_id: String,
    pub time: u64,
    pub stat: STATS,
    pub files: Vec<FILE>,
    pub comment_ids: Vec<String>,
    pub watch_ids: Vec<String>,
    pub like_ids: Vec<String>,
    pub favorite_ids: Vec<String>,
    pub category: String,
}

/// A comment on a post or on another comment; `time` as in [`POST`].
#[derive(Clone, Debug)]
pub struct COMMENT {
    pub comment_id: String,
    pub content: String,
    pub user_id: String,
    pub time: u64,
    pub stat: STATS,
    pub files: Vec<FILE>,
    pub comment_ids: Vec<String>,
    pub watch_ids: Vec<String>,
    pub like_ids: Vec<String>,
    pub favorite_ids: Vec<String>,
}

/// Counters that start at zero.
pub fn zero_stats() -> (r: STATS)
    ensures
        r.watch == 0 && r.like == 0 && r.favorite == 0 && r.comment == 0,
{
    STATS { watch: 0, like: 0, favorite: 0, comment: 0 }
}

} // verus!
