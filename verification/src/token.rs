//! Session tokens: how they are made, when they expire, and the database
//! writes that store or clear them.
use vstd::prelude::*;
use std::time::{Duration, SystemTime, UNIX_EPOCH};
use crate::config::COOKIES_EXPIRES_SECONDS;
use crate::text::{decimal, append_decimal, push_char};
use crate::reply::Rejection;

verus! {

/// Raised when storing a new token fails.
#[derive(Debug)]
pub struct FailedToUpdateToken(pub String);

/// Raised when a token cannot be checked.
#[derive(Debug)]
pub struct FailedToValidateToken(pub String);

/// Raised when clearing an expired token fails.
#[derive(Debug)]
pub struct FailedToClearToken(pub String);

/// A session token. `expires` is the instant, in nanoseconds since the Unix
/// epoch, up to which the token is accepted.
#[derive(Clone, Debug)]
pub struct Token {
    pub token: String,
    pub expires: u64,
    pub student_id_of_token: String,
}

/// A reading of the clock: whole seconds and the nanoseconds past them,
/// since the Unix epoch.
#[derive(Clone, Copy, Debug)]
pub struct Timestamp {
    pub secs: u64,
    pub subsec_nanos: u32,
}

pub open spec fn nanos_since_epoch(t: Timestamp) -> int {
    t.secs * 1_000_000_000 + t.subsec_nanos
}

/// `x` capped at the largest `u64`.
pub open spec fn saturate(x: int) -> u64 {
    if x > u64::MAX {
        u64::MAX
    } else {
        x as u64
    }
}

/// The lifetime of a token in nanoseconds.
pub open spec fn token_lifetime() -> int {
    COOKIES_EXPIRES_SECONDS * 1_000_000_000
}

/// The instant at which a token made at `t` stops being accepted.
pub open spec fn expiry_for(t: Timestamp) -> u64 {
    saturate(nanos_since_epoch(t) + token_lifetime())
}

/// The text whose SHA-256 digest is the token handed to `student_id` at
/// second `secs`: the id, a `+`, and the seconds in decimal.
pub open spec fn token_source(student_id: Seq<char>, secs: nat) -> Seq<char> {
    student_id + seq!['+'] + decimal(secs)
}

/// What the service says when the clock reads before the Unix epoch.
pub const TIME_ERROR_REASON: &'static str = "服务器时间存在致命错误";

/// The lowercase hexadecimal SHA-256 digest of the UTF-8 encoding of a text,
/// as `sha256::digest` returns it.
pub uninterp spec fn sha256_digest(input: Seq<char>) -> Seq<char>;

/// `sha256::digest`: hex-encodes the SHA-256 hash of the text's bytes. Its
/// result is a function of the text alone, named `sha256_digest`; the crate
/// hex-encodes the 32-byte hash, so the result has 64 characters.
#[verifier::external_body]
pub(crate) fn sha256_hex(input: &str) -> (r: String)
    ensures
        r@ == sha256_digest(input@),
        r@.len() == 64,
{
    sha256::digest(input)
}

#[verifier::external_type_specification]
#[verifier::external_body]
pub struct ExSystemTime(SystemTime);

/// `SystemTime::now`: the current time; nothing is known of it.
#[verifier::external_body]
fn system_time_now() -> SystemTime {
    SystemTime::now()
}

/// `SystemTime::duration_since(UNIX_EPOCH)`: the time elapsed since the
/// epoch, `None` when `t` lies before it. Which of the two comes back depends
/// on the clock and is not stated.
#[verifier::external_body]
fn duration_since_unix_epoch(t: &SystemTime) -> Option<Duration> {
    t.duration_since(UNIX_EPOCH).ok()
}

/// `Duration::as_secs`: the whole seconds of a duration.
#[verifier::external_body]
fn duration_secs(d: &Duration) -> u64 {
    d.as_secs()
}

/// `Duration::subsec_nanos`: the fractional part in nanoseconds, which the
/// documentation bounds below one billion.
#[verifier::external_body]
fn duration_subsec_nanos(d: &Duration) -> (r: u32)
    ensures
        r < 1_000_000_000,
{
    d.subsec_nanos()
}

/// Reads the clock; `None` when it stands before the Unix epoch.
pub fn current_time() -> (r: Option<Timestamp>)
    ensures
        r matches Some(t) ==> t.subsec_nanos < 1_000_000_000,
{
    let now = system_time_now();
    match duration_since_unix_epoch(&now) {
        Some(d) => Some(Timestamp { secs: duration_secs(&d), subsec_nanos: duration_subsec_nanos(&d) }),
        None => None,
    }
}

fn saturating_nanos(t: Timestamp, extra_secs: u64) -> (r: u64)
    ensures
        r == saturate(nanos_since_epoch(t) + extra_secs * 1_000_000_000),
{
    let s: u128 = t.secs as u128 + extra_secs as u128;
    assert(s * 1_000_000_000 <= 36_893_488_147_419_103_230_000_000_000u128) by (nonlinear_arith)
        requires
            s <= 36_893_488_147_419_103_230u128,
    ;
    let total: u128 = s * 1_000_000_000u128 + t.subsec_nanos as u128;
    assert(total == nanos_since_epoch(t) + extra_secs * 1_000_000_000) by (nonlinear_arith)
        requires
            s == t.secs + extra_secs,
            total == s * 1_000_000_000 + t.subsec_nanos,
    ;
    if total > u64::MAX as u128 {
        u64::MAX
    } else {
        total as u64
    }
}

/// Whether a token is still accepted at `now`. Reading a clock that stands
/// before the epoch (`None`) is an error.
pub open spec fn token_valid_at(token: Token, now: Timestamp) -> bool {
    saturate(nanos_since_epoch(now)) <= token.expires
}

/// Checks a token against the time `now`.
pub fn validate_token_at(token: &Token, now: Option<Timestamp>) -> (r: Result<bool, String>)
    ensures
        match now {
            Some(t) => r == Ok::<bool, String>(token_valid_at(*token, t)),
            None => r matches Err(e) && e@ == TIME_ERROR_REASON@,
        },
{
    match now {
        Some(t) => Ok(saturating_nanos(t, 0) <= token.expires),
        None => Err(String::from_str(TIME_ERROR_REASON)),
    }
}

/// Checks a token against the current time.
pub fn validate_token(token: &Token) -> (r: Result<bool, String>)
    ensures
        r matches Err(e) ==> e@ == TIME_ERROR_REASON@,
        r matches Ok(v) ==> exists|t: Timestamp| v == token_valid_at(*token, t),
{
    validate_token_at(token, current_time())
}

impl Token {
    /// The token issued to `student_id` when the clock reads `now`: the digest
    /// of the id and the current second, valid for `COOKIES_EXPIRES_SECONDS`.
    pub fn new_at(student_id: String, now: Option<Timestamp>) -> (r: Result<Token, String>)
        ensures
            match now {
                Some(t) => r matches Ok(tok) && tok.token@ == sha256_digest(
                    token_source(student_id@, t.secs as nat),
                ) && tok.expires == expiry_for(t) && tok.student_id_of_token == student_id,
                None => r matches Err(e) && e@ == TIME_ERROR_REASON@,
            },
    {
        match now {
            Some(t) => {
                let mut source = String::from_str(student_id.as_str());
                push_char(&mut source, '+');
                append_decimal(&mut source, t.secs);
                assert(source@ =~= token_source(student_id@, t.secs as nat));
                let token = sha256_hex(source.as_str());
                let expires = saturating_nanos(t, COOKIES_EXPIRES_SECONDS);
                Ok(Token { token, expires, student_id_of_token: student_id })
            },
            None => Err(String::from_str(TIME_ERROR_REASON)),
        }
    }

    /// The token issued to `student_id` now.
    pub fn new(student_id: String) -> (r: Result<Token, String>)
        ensures
            r matches Err(e) ==> e@ == TIME_ERROR_REASON@,
            r matches Ok(tok) ==> tok.student_id_of_token == student_id && exists|t: Timestamp|
                tok.token@ == sha256_digest(token_source(student_id@, t.secs as nat))
                    && tok.expires == expiry_for(t),
    {
        Token::new_at(student_id, current_time())
    }

    /// The token an account holds when it has no session.
    pub fn new_empty() -> (r: Token)
        ensures
            r.token@ == Seq::<char>::empty(),
            r.expires == 0,
            r.student_id_of_token@ == Seq::<char>::empty(),
    {
        Token { token: String::new(), expires: 0, student_id_of_token: String::new() }
    }
}

/// A token issued at `t` is accepted at every instant from `t` until its
/// lifetime has passed, and (unless its expiry hit the largest `u64`) at no
/// instant after that.
pub proof fn lemma_fresh_token_lifetime(token: Token, t: Timestamp, later: Timestamp)
    requires
        token.expires == expiry_for(t),
    ensures
        nanos_since_epoch(t) <= nanos_since_epoch(later) <= nanos_since_epoch(t) + token_lifetime()
            ==> token_valid_at(token, later),
        nanos_since_epoch(t) + token_lifetime() < u64::MAX && nanos_since_epoch(later) > nanos_since_epoch(t)
            + token_lifetime() ==> !token_valid_at(token, later),
{
}

/// The empty token, held by accounts without a session, is accepted at no
/// instant after the epoch itself.
pub proof fn lemma_empty_token_never_valid(token: Token, t: Timestamp)
    requires
        token.expires == 0,
        nanos_since_epoch(t) > 0,
    ensures
        !token_valid_at(token, t),
{
}

/// The two account collections.
#[derive(Clone, Copy, Debug, PartialEq, Eq, Structural)]
pub enum Accounts {
    Guests,
    Admins,
}

/// The collection name of an account kind.
pub open spec fn accounts_name(a: Accounts) -> Seq<char> {
    match a {
        Accounts::Guests => "guests"@,
        Accounts::Admins => "admins"@,
    }
}

pub fn accounts_collection(a: Accounts) -> (r: String)
    ensures
        r@ == accounts_name(a),
{
    match a {
        Accounts::Guests => String::from_str("guests"),
        Accounts::Admins => String::from_str("admins"),
    }
}

/// A write that sets the token of the account `student_id` in `accounts`.
#[derive(Clone, Debug)]
pub struct TokenWrite {
    pub accounts: Accounts,
    pub student_id: String,
    pub token: Token,
}

/// The write that ends the session of `token_to_clear`: the guest account it
/// belongs to gets the empty token.
pub fn clear_token(token_to_clear: &Token) -> (w: TokenWrite)
    ensures
        w.accounts == Accounts::Guests,
        w.student_id@ == token_to_clear.student_id_of_token@,
        w.token.token@ == Seq::<char>::empty(),
        w.token.expires == 0,
        w.token.student_id_of_token@ == Seq::<char>::empty(),
{
    TokenWrite {
        accounts: Accounts::Guests,
        student_id: token_to_clear.student_id_of_token.clone(),
        token: Token::new_empty(),
    }
}

/// The write that stores `new_token` on the account it names, in `accounts`.
pub fn update_token(new_token: Token, accounts: Accounts) -> (w: TokenWrite)
    ensures
        w.accounts == accounts,
        w.student_id@ == new_token.student_id_of_token@,
        w.token == new_token,
{
    let student_id = new_token.student_id_of_token.clone();
    TokenWrite { accounts, student_id, token: new_token }
}

/// The result of clearing a token, given what the database answered.
pub fn clear_token_outcome(written: Result<(), String>) -> (r: Result<bool, Rejection>)
    ensures
        match written {
            Ok(_) => r == Ok::<bool, Rejection>(true),
            Err(e) => r == Err::<bool, Rejection>(Rejection::ClearToken(FailedToClearToken(e))),
        },
{
    match written {
        Ok(_) => Ok(true),
        Err(e) => Err(Rejection::ClearToken(FailedToClearToken(e))),
    }
}

/// The result of storing a token, given what the database answered.
pub fn update_token_outcome(written: Result<(), String>) -> (r: Result<bool, Rejection>)
    ensures
        match written {
            Ok(_) => r == Ok::<bool, Rejection>(true),
            Err(e) => r == Err::<bool, Rejection>(Rejection::UpdateToken(FailedToUpdateToken(e))),
        },
{
    match written {
        Ok(_) => Ok(true),
        Err(e) => Err(Rejection::UpdateToken(FailedToUpdateToken(e))),
    }
}

} // verus!
