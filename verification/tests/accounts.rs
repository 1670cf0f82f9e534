use sls::config::{SLSMEMBER, USER};
use sls::reply::{Data, Endpoint, Rejection, Reply, Step};
use sls::submit_change_password_info::{password_change_allowed, password_changed, ChangePasswordInfo};
use sls::submit_login_info::{
    membership_in_category, session_for, session_for_at, sign_in_account, signed_in, token_stored,
    verification_stored,
};
use sls::submit_new_sls_member::{
    member_absent, member_created, new_member_record, picture_copied, picture_copy, NewSlsMember,
};
use sls::submit_signup_info::{signup_account, signup_done, SignUpInfo};
use sls::submit_sls_member_moving::{members_moved, moving_allowed, SlsMemberMoving};
use sls::submit_sls_member_profile_update::{
    not_a_member, profile_after, profile_owner_in_category, profile_updated, SlsMemberProfileUpdate,
};
use sls::token::{Accounts, Timestamp, Token};

fn account(id: &str, password: &str) -> USER {
    USER {
        student_id: id.to_string(),
        name: "Zhang".to_string(),
        password: password.to_string(),
        token: Token::new_empty(),
        sls_verification: false,
    }
}

fn failure_text(r: &Result<Reply, Rejection>) -> String {
    match r {
        Ok(Reply::Failure(m)) => m.clone(),
        other => panic!("expected a failure, got {:?}", other),
    }
}

fn done_failure<T: std::fmt::Debug>(s: Step<T>) -> String {
    match s {
        Step::Done(r) => failure_text(&r),
        Step::Next(v) => panic!("expected a failure, went on with {:?}", v),
    }
}

#[test]
fn sign_in_checks_the_account() {
    let ep = Endpoint::SubmitLoginInfo;
    let pw = "secret".to_string();
    assert_eq!(done_failure(sign_in_account(ep, Ok(None), &pw)), "账户未注册");
    assert_eq!(done_failure(sign_in_account(ep, Ok(Some(account("1", "other"))), &pw)), "密码错误");
    match sign_in_account(ep, Ok(Some(account("1", "secret"))), &pw) {
        Step::Next(u) => assert_eq!(u.student_id, "1"),
        _ => panic!("the right password was refused"),
    }
    match sign_in_account(ep, Err("db down".to_string()), &pw) {
        Step::Done(Err(Rejection::SubmitLoginInfo(e))) => assert_eq!(e.0, "db down"),
        _ => panic!("a lookup error was not raised"),
    }
    match sign_in_account(Endpoint::SubmitAdminLoginInfo, Err("x".to_string()), &pw) {
        Step::Done(Err(Rejection::SubmitAdminLoginInfo(e))) => assert_eq!(e.0, "x"),
        _ => panic!("an administrator lookup error was not raised"),
    }
}

#[test]
fn new_sessions_store_a_fresh_token() {
    let user = account("2020", "pw");
    let now = Timestamp { secs: 1_600_000_000, subsec_nanos: 5 };
    match session_for_at(Endpoint::SubmitLoginInfo, &user, Some(now)) {
        Step::Next(w) => {
            assert_eq!(w.accounts, Accounts::Guests);
            assert_eq!(w.student_id, "2020");
            assert_eq!(w.token.token, sha256::digest("2020+1600000000"));
            assert_eq!(w.token.student_id_of_token, "2020");
            assert_eq!(w.token.expires, (1_600_000_000u64 + 2_000_000) * 1_000_000_000 + 5);
        },
        _ => panic!("no session"),
    }
    match session_for_at(Endpoint::SubmitAdminLoginInfo, &user, Some(now)) {
        Step::Next(w) => assert_eq!(w.accounts, Accounts::Admins),
        _ => panic!("no administrator session"),
    }
    match session_for_at(Endpoint::SubmitLoginInfo, &user, None) {
        Step::Done(Err(Rejection::TokenGeneration(e))) => assert_eq!(e.0, "服务器时间存在致命错误"),
        _ => panic!("a broken clock was not reported"),
    }
    match session_for_at(Endpoint::SubmitAdminLoginInfo, &user, None) {
        Step::Done(Err(Rejection::AdminTokenGeneration(e))) => assert_eq!(e.0, "服务器时间存在致命错误"),
        _ => panic!("a broken clock was not reported"),
    }
    match session_for(Endpoint::SubmitLoginInfo, &user) {
        Step::Next(w) => {
            assert_eq!(w.token.token.len(), 64);
            assert_eq!(w.token.student_id_of_token, "2020");
        },
        _ => panic!("the system clock is before the epoch"),
    }
}

#[test]
fn sign_in_bookkeeping() {
    assert!(matches!(token_stored(Ok(())), Step::Next(())));
    assert!(matches!(token_stored(Err("e".to_string())), Step::Done(Err(Rejection::UpdateToken(_)))));
    assert!(matches!(membership_in_category(Ok(true)), Some(Ok(true))));
    assert!(membership_in_category(Ok(false)).is_none());
    assert!(matches!(membership_in_category(Err("e".to_string())), Some(Err(Rejection::VerifySlsMember(_)))));
    assert!(matches!(verification_stored(Ok(())), Step::Next(())));
    assert!(matches!(
        verification_stored(Err("e".to_string())),
        Step::Done(Err(Rejection::UpdateSlsVerification(_)))
    ));
    let t = Token { token: "t".to_string(), expires: 9, student_id_of_token: "s".to_string() };
    match signed_in(t) {
        Ok(Reply::Success(Data::Token(t))) => assert_eq!(t.expires, 9),
        other => panic!("unexpected {:?}", other),
    }
}

#[test]
fn sign_up_creates_a_bare_account() {
    let info = SignUpInfo { student_id: "9".to_string(), name: "N".to_string(), password: "P".to_string() };
    assert_eq!(done_failure(signup_account(Ok(Some(account("9", "x"))), info.clone())), "该账号已注册");
    match signup_account(Ok(None), info.clone()) {
        Step::Next(u) => {
            assert_eq!((u.student_id.as_str(), u.name.as_str(), u.password.as_str()), ("9", "N", "P"));
            assert_eq!(u.token.token, "");
            assert_eq!(u.token.expires, 0);
            assert!(!u.sls_verification);
            match signup_done(Ok(()), u) {
                Ok(Reply::Success(Data::Account(a))) => assert_eq!(a.student_id, "9"),
                other => panic!("unexpected {:?}", other),
            }
        },
        _ => panic!("a free id was refused"),
    }
    assert!(matches!(
        signup_account(Err("e".to_string()), info),
        Step::Done(Err(Rejection::SubmitSignUpInfo(_)))
    ));
    assert!(matches!(
        signup_done(Err("e".to_string()), account("9", "P")),
        Err(Rejection::SubmitSignUpInfo(_))
    ));
}

#[test]
fn password_changes_need_the_old_password() {
    let info = ChangePasswordInfo {
        student_id: "1".to_string(),
        old_password: "old".to_string(),
        new_password: "new".to_string(),
    };
    assert_eq!(done_failure(password_change_allowed(Ok(None), &info)), "账户未注册");
    assert_eq!(done_failure(password_change_allowed(Ok(Some(account("1", "other"))), &info)), "旧密码错误");
    assert!(matches!(password_change_allowed(Ok(Some(account("1", "old"))), &info), Step::Next(())));
    assert!(matches!(
        password_change_allowed(Err("e".to_string()), &info),
        Step::Done(Err(Rejection::SubmitChangePasswordInfo(_)))
    ));
    assert!(matches!(password_changed(Ok(())), Ok(Reply::Success(Data::Empty))));
    assert!(matches!(password_changed(Err("e".to_string())), Err(Rejection::SubmitChangePasswordInfo(_))));
}

#[test]
fn new_members() {
    assert!(matches!(member_absent(false), Step::Next(())));
    assert_eq!(done_failure(member_absent(true)), "该山林寺成员已注册");
    let (from, to) = picture_copy(&"2019".to_string());
    assert_eq!(from, "./resources/images/sls_members//default.png");
    assert_eq!(to, "./resources/images/sls_members//2019.png");
    assert!(matches!(picture_copied(Ok(())), Step::Next(())));
    assert!(matches!(picture_copied(Err("e".to_string())), Step::Done(Err(Rejection::SubmitNewSlsMember(_)))));
    let m = new_member_record(NewSlsMember {
        name: "Liu".to_string(),
        student_id: "2019".to_string(),
        description: "PhD".to_string(),
    });
    assert_eq!(m.image, "2019.png");
    assert_eq!(m.url, "http://psplhl-pc.dynv6.net:3001/sls_member/2019");
    assert_eq!((m.name.as_str(), m.description.as_str(), m.student_id.as_str()), ("Liu", "PhD", "2019"));
    assert!(m.introduction.is_empty() && m.email.is_empty() && m.phone_number.is_empty());
    assert!(m.papers.is_empty() && m.paper_years.is_empty());
    match member_created(Ok(()), m) {
        Ok(Reply::Success(Data::SlsMember(m))) => assert_eq!(m.student_id, "2019"),
        other => panic!("unexpected {:?}", other),
    }
}

#[test]
fn moving_members() {
    let moving = SlsMemberMoving {
        sls_member_category_target: "graduates".to_string(),
        student_ids: vec!["a".to_string(), "b".to_string()],
    };
    let students = "students".to_string();
    assert!(matches!(moving_allowed(2, &moving, &students), Step::Next(())));
    assert_eq!(done_failure(moving_allowed(1, &moving, &students)), "不能转移不存在的山林寺成员");
    // a move into the category the members are already in writes nothing
    let graduates = "graduates".to_string();
    assert!(matches!(moving_allowed(2, &moving, &graduates), Step::Done(Ok(Reply::Success(Data::Empty)))));
    assert_eq!(done_failure(moving_allowed(1, &moving, &graduates)), "不能转移不存在的山林寺成员");
    assert!(matches!(members_moved(Ok(())), Ok(Reply::Success(Data::Empty))));
    assert!(matches!(members_moved(Err("e".to_string())), Err(Rejection::SubmitSlsMemberMoving(_))));
}

#[test]
fn profile_updates() {
    match profile_updated(Ok(()), "Wu".to_string()) {
        Ok(Reply::Success(Data::MemberName(n))) => assert_eq!(n, "Wu"),
        other => panic!("unexpected {:?}", other),
    }
    assert!(matches!(
        profile_updated(Err("e".to_string()), "Wu".to_string()),
        Err(Rejection::SubmitSlsMemberProfileUpdate(_))
    ));
    assert_eq!(failure_text(&not_a_member()), "用户非山林寺成员");
}

#[test]
fn a_new_account_signs_in_with_its_password() {
    let info = SignUpInfo { student_id: "77".to_string(), name: "Q".to_string(), password: "pw7".to_string() };
    let user = match signup_account(Ok(None), info) {
        Step::Next(u) => u,
        _ => panic!("a free id was refused"),
    };
    match sign_in_account(Endpoint::SubmitLoginInfo, Ok(Some(user.clone())), &"pw7".to_string()) {
        Step::Next(u) => assert_eq!(u.student_id, "77"),
        _ => panic!("the new account could not sign in"),
    }
    assert_eq!(
        done_failure(sign_in_account(Endpoint::SubmitLoginInfo, Ok(Some(user)), &"pw8".to_string())),
        "密码错误"
    );
}

#[test]
fn profile_updates_change_only_the_profile_fields() {
    let member = SLSMEMBER {
        name: "Wu".to_string(),
        description: "PhD".to_string(),
        image: "5.png".to_string(),
        student_id: "5".to_string(),
        introduction: "old".to_string(),
        email: "old@x".to_string(),
        phone_number: "1".to_string(),
        papers: vec![vec!["p".to_string()]],
        paper_years: vec!["2020".to_string()],
        url: "u".to_string(),
    };
    let update = SlsMemberProfileUpdate {
        email: "new@x".to_string(),
        phone_number: "2".to_string(),
        url: "v".to_string(),
        introduction: "new".to_string(),
        paper_years: vec![],
        papers: vec![],
    };
    let m = profile_after(member, update);
    assert_eq!((m.name.as_str(), m.description.as_str(), m.image.as_str(), m.student_id.as_str()), ("Wu", "PhD", "5.png", "5"));
    assert_eq!((m.email.as_str(), m.phone_number.as_str(), m.url.as_str(), m.introduction.as_str()), ("new@x", "2", "v", "new"));
    assert!(m.papers.is_empty() && m.paper_years.is_empty());
    assert!(profile_owner_in_category(Ok(None)).is_none());
    assert!(matches!(profile_owner_in_category(Ok(Some(m))), Some(Step::Next(x)) if x.name == "Wu"));
    assert!(matches!(
        profile_owner_in_category(Err("e".to_string())),
        Some(Step::Done(Err(Rejection::SubmitSlsMemberProfileUpdate(_))))
    ));
}
