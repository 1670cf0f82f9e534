use sls::config::USER;
use sls::reply::{Endpoint, Rejection, Reply, Step};
use sls::session::{
    accounts_of, check_session, require_token, session_after_validation, session_expired, session_user, Session,
};
use sls::token::{
    clear_token, clear_token_outcome, update_token, update_token_outcome, validate_token, validate_token_at, Accounts,
    Timestamp, Token,
};

fn user_with(expires: u64) -> USER {
    USER {
        student_id: "2021001".to_string(),
        name: "Li".to_string(),
        password: "pw".to_string(),
        token: Token { token: "abc".to_string(), expires, student_id_of_token: "2021001".to_string() },
        sls_verification: true,
    }
}

fn failure_text(r: &Result<Reply, Rejection>) -> String {
    match r {
        Ok(Reply::Failure(m)) => m.clone(),
        other => panic!("expected a failure, got {:?}", other),
    }
}

#[test]
fn token_is_digest_of_id_and_second() {
    let now = Timestamp { secs: 1_700_000_000, subsec_nanos: 250 };
    let t = Token::new_at("2021001".to_string(), Some(now)).unwrap();
    assert_eq!(t.token, sha256::digest("2021001+1700000000"));
    assert_eq!(t.token.len(), 64);
    assert_eq!(t.expires, 1_700_000_000 * 1_000_000_000 + 250 + 2_000_000 * 1_000_000_000);
    assert_eq!(t.student_id_of_token, "2021001");
}

#[test]
fn token_needs_a_clock_after_the_epoch() {
    let r = Token::new_at("x".to_string(), None);
    assert_eq!(r.unwrap_err(), "服务器时间存在致命错误");
    assert_eq!(validate_token_at(&Token::new_empty(), None).unwrap_err(), "服务器时间存在致命错误");
}

#[test]
fn token_expiry_saturates() {
    let now = Timestamp { secs: u64::MAX, subsec_nanos: 999_999_999 };
    let t = Token::new_at("x".to_string(), Some(now)).unwrap();
    assert_eq!(t.expires, u64::MAX);
    assert_eq!(validate_token_at(&t, Some(now)), Ok(true));
}

#[test]
fn fresh_token_valid_for_its_lifetime() {
    let start = Timestamp { secs: 1000, subsec_nanos: 0 };
    let t = Token::new_at("s".to_string(), Some(start)).unwrap();
    assert_eq!(validate_token_at(&t, Some(start)), Ok(true));
    let last = Timestamp { secs: 1000 + 2_000_000, subsec_nanos: 0 };
    assert_eq!(validate_token_at(&t, Some(last)), Ok(true));
    let after = Timestamp { secs: 1000 + 2_000_000, subsec_nanos: 1 };
    assert_eq!(validate_token_at(&t, Some(after)), Ok(false));
}

#[test]
fn empty_token_is_never_valid() {
    let t = Token::new_empty();
    assert_eq!(t.token, "");
    assert_eq!(t.expires, 0);
    assert_eq!(t.student_id_of_token, "");
    assert_eq!(validate_token_at(&t, Some(Timestamp { secs: 0, subsec_nanos: 1 })), Ok(false));
    assert_eq!(validate_token(&t), Ok(false));
}

#[test]
fn clock_backed_token() {
    let t = Token::new("2021001".to_string()).unwrap();
    assert_eq!(t.student_id_of_token, "2021001");
    assert_eq!(validate_token(&t), Ok(true));
}

#[test]
fn token_writes() {
    let t = Token { token: "abc".to_string(), expires: 9, student_id_of_token: "s1".to_string() };
    let w = clear_token(&t);
    assert_eq!(w.accounts, Accounts::Guests);
    assert_eq!(w.student_id, "s1");
    assert_eq!(w.token.token, "");
    assert_eq!(w.token.expires, 0);
    let w = update_token(t, Accounts::Admins);
    assert_eq!(w.accounts, Accounts::Admins);
    assert_eq!(w.student_id, "s1");
    assert_eq!(w.token.token, "abc");
    assert!(matches!(clear_token_outcome(Ok(())), Ok(true)));
    assert!(matches!(clear_token_outcome(Err("down".to_string())), Err(Rejection::ClearToken(e)) if e.0 == "down"));
    assert!(matches!(update_token_outcome(Err("down".to_string())), Err(Rejection::UpdateToken(e)) if e.0 == "down"));
}

#[test]
fn missing_token_reasons() {
    for (ep, reason) in [
        (Endpoint::GetFsMap, "请登录后再试"),
        (Endpoint::SubmitAnAction, "请登录后再试"),
        (Endpoint::SubmitCommentRemoving, "请登录后再试"),
        (Endpoint::SubmitSlsMemberMoving, "请登录后再试"),
        (Endpoint::SubmitImages, "无token"),
        (Endpoint::SubmitNewComment, "无token"),
        (Endpoint::SubmitNewPost, "无token"),
        (Endpoint::SubmitNewSlsMember, "无token"),
        (Endpoint::SubmitSlsMemberProfileUpdate, "无token"),
    ] {
        match require_token(ep, None) {
            Step::Done(r) => assert_eq!(failure_text(&r), reason),
            Step::Next(_) => panic!("no token must end the request"),
        }
    }
    assert!(matches!(require_token(Endpoint::GetFsMap, Some("t".to_string())), Step::Next(t) if t == "t"));
}

#[test]
fn unknown_token_reasons() {
    match session_user(Endpoint::SubmitAnAction, Ok(None)) {
        Step::Done(r) => assert_eq!(failure_text(&r), "请重新登录"),
        Step::Next(_) => panic!(),
    }
    match session_user(Endpoint::SubmitNewPost, Ok(None)) {
        Step::Done(r) => assert_eq!(failure_text(&r), "token无效"),
        Step::Next(_) => panic!(),
    }
    match session_user(Endpoint::SubmitNewPost, Err("db".to_string())) {
        Step::Done(Err(Rejection::SubmitNewPost(e))) => assert_eq!(e.0, "db"),
        _ => panic!(),
    }
    assert!(matches!(session_user(Endpoint::GetFsMap, Ok(Some(user_with(1)))), Step::Next(u) if u.name == "Li"));
}

#[test]
fn session_accounts() {
    assert_eq!(accounts_of(Endpoint::SubmitImages), Accounts::Admins);
    assert_eq!(accounts_of(Endpoint::SubmitCommentRemoving), Accounts::Admins);
    assert_eq!(accounts_of(Endpoint::SubmitNewSlsMember), Accounts::Admins);
    assert_eq!(accounts_of(Endpoint::SubmitSlsMemberMoving), Accounts::Admins);
    assert_eq!(accounts_of(Endpoint::SubmitNewPost), Accounts::Guests);
    assert_eq!(accounts_of(Endpoint::GetFsMap), Accounts::Guests);
}

#[test]
fn expired_sessions_are_cleared() {
    match session_after_validation(Endpoint::SubmitNewPost, user_with(5), Ok(false)) {
        Session::Expired(w) => {
            assert_eq!(w.accounts, Accounts::Guests);
            assert_eq!(w.student_id, "2021001");
            assert_eq!(w.token.token, "");
        },
        other => panic!("{:?}", other),
    }
    assert!(matches!(session_after_validation(Endpoint::SubmitNewPost, user_with(5), Ok(true)), Session::Valid(_)));
    match session_after_validation(Endpoint::GetFsMap, user_with(5), Err("clock".to_string())) {
        Session::Ended(Err(Rejection::GetFsMap(e))) => assert_eq!(e.0, "clock"),
        other => panic!("{:?}", other),
    }
    assert_eq!(failure_text(&session_expired(Ok(()))), "用户token已过期，请重新登录");
    assert!(matches!(session_expired(Err("x".to_string())), Err(Rejection::ClearToken(_))));
}

#[test]
fn check_session_against_the_clock() {
    assert!(matches!(check_session(Endpoint::GetFsMap, user_with(u64::MAX)), Session::Valid(_)));
    assert!(matches!(check_session(Endpoint::GetFsMap, user_with(0)), Session::Expired(_)));
}
