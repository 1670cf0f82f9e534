use sls::config::STATS;
use sls::get_comment_with_id::comment_found;
use sls::get_posts::{posts_page, Paginator, PageDecision};
use sls::get_favorite_posts_with_student_id::{favorites_page, GetFavoritePostsWithStudentIdConfig};
use sls::get_posts::GetPostsConfig;
use sls::reply::{Data, Endpoint, Rejection, Reply, Step};
use sls::submit_an_action::{
    act_on_target, action_kind, action_recorded, action_target, apply_action, target_fits, Action, ActionKind,
    Engagement, TargetKind,
};
use sls::submit_comment_removing::{comments_removed, removal_allowed, CommentRemoving};
use sls::submit_new_comment::{attach_comment, comment_created, comment_parent, new_comment_record};
use sls::submit_new_post::{new_post_record, post_created, NewPost};

fn ids(v: &[&str]) -> Vec<String> {
    v.iter().map(|s| s.to_string()).collect()
}

fn engagement(watch: &[&str], like: &[&str], fav: &[&str]) -> Engagement {
    Engagement {
        stat: STATS { watch: watch.len() as i32, like: like.len() as i32, favorite: fav.len() as i32, comment: 3 },
        watch_ids: ids(watch),
        like_ids: ids(like),
        favorite_ids: ids(fav),
    }
}

fn action(category: &str, object: &str) -> Action {
    Action {
        action_category: category.to_string(),
        object_acted_on: object.to_string(),
        post_or_comment_id_acted_on: "p1".to_string(),
    }
}

fn failure_text(r: &Result<Reply, Rejection>) -> String {
    match r {
        Ok(Reply::Failure(m)) => m.clone(),
        other => panic!("expected a failure, got {:?}", other),
    }
}

#[test]
fn watching_is_counted_each_time() {
    let e = engagement(&["a"], &[], &[]);
    let e = apply_action(e, ActionKind::Watch, "a".to_string());
    assert_eq!(e.stat.watch, 2);
    assert_eq!(e.watch_ids, ids(&["a", "a"]));
    assert_eq!(e.stat.comment, 3);
}

#[test]
fn like_toggles() {
    let e = engagement(&[], &["b"], &[]);
    let e = apply_action(e, ActionKind::Like, "a".to_string());
    assert_eq!(e.like_ids, ids(&["b", "a"]));
    assert_eq!(e.stat.like, 2);
    let e = apply_action(e, ActionKind::Like, "b".to_string());
    assert_eq!(e.like_ids, ids(&["a"]));
    assert_eq!(e.stat.like, 1);
}

#[test]
fn like_twice_restores() {
    let before = engagement(&["w"], &["b", "c"], &["c"]);
    let once = apply_action(before.clone(), ActionKind::Like, "a".to_string());
    let twice = apply_action(once, ActionKind::Like, "a".to_string());
    assert_eq!(twice.like_ids, before.like_ids);
    assert_eq!(twice.stat.like, before.stat.like);
    let once = apply_action(before.clone(), ActionKind::Favorite, "z".to_string());
    let twice = apply_action(once, ActionKind::Favorite, "z".to_string());
    assert_eq!(twice.favorite_ids, before.favorite_ids);
    assert_eq!(twice.stat.favorite, before.stat.favorite);
}

#[test]
fn counters_follow_the_lists() {
    let mut e = engagement(&[], &[], &[]);
    for (kind, who) in [
        (ActionKind::Like, "a"), (ActionKind::Like, "b"), (ActionKind::Favorite, "a"), (ActionKind::Watch, "c"),
        (ActionKind::Like, "a"), (ActionKind::Favorite, "b"), (ActionKind::Favorite, "a"), (ActionKind::Watch, "a"),
    ] {
        e = apply_action(e, kind, who.to_string());
        assert_eq!(e.stat.like as usize, e.like_ids.len());
        assert_eq!(e.stat.favorite as usize, e.favorite_ids.len());
        assert_eq!(e.stat.watch as usize, e.watch_ids.len());
    }
    assert_eq!(e.like_ids, ids(&["b"]));
    assert_eq!(e.favorite_ids, ids(&["b"]));
}

#[test]
fn only_the_first_mark_is_taken_back() {
    let e = engagement(&[], &["a", "b", "a"], &[]);
    let e = apply_action(e, ActionKind::Like, "a".to_string());
    assert_eq!(e.like_ids, ids(&["b", "a"]));
    assert_eq!(e.stat.like, 2);
}

#[test]
fn action_kinds_and_targets() {
    assert_eq!(action_kind(&"watch".to_string()), Some(ActionKind::Watch));
    assert_eq!(action_kind(&"like".to_string()), Some(ActionKind::Like));
    assert_eq!(action_kind(&"favorite".to_string()), Some(ActionKind::Favorite));
    assert_eq!(action_kind(&"share".to_string()), None);
    assert!(matches!(action_target(&action("like", "post")), Step::Next(TargetKind::Post)));
    assert!(matches!(action_target(&action("like", "comment")), Step::Next(TargetKind::Comment)));
    match action_target(&action("like", "user")) {
        Step::Done(Err(Rejection::SubmitAnAction(e))) => assert_eq!(e.0, "评论对象类型不存在"),
        _ => panic!(),
    }
}

#[test]
fn acting_on_targets() {
    let a = action("like", "post");
    match act_on_target(Ok(None), &a, "s".to_string()) {
        Step::Done(r) => assert_eq!(failure_text(&r), "评论对象不存在"),
        _ => panic!(),
    }
    match act_on_target(Err("db".to_string()), &a, "s".to_string()) {
        Step::Done(Err(Rejection::SubmitAnAction(e))) => assert_eq!(e.0, "db"),
        _ => panic!(),
    }
    match act_on_target(Ok(Some(engagement(&[], &[], &[]))), &action("share", "post"), "s".to_string()) {
        Step::Done(r) => assert_eq!(failure_text(&r), "不存在该类型动作"),
        _ => panic!(),
    }
    match act_on_target(Ok(Some(engagement(&[], &[], &[]))), &a, "s".to_string()) {
        Step::Next(e) => assert_eq!(e.like_ids, ids(&["s"])),
        _ => panic!(),
    }
    assert!(matches!(action_recorded(Ok(()), a.clone()), Ok(Reply::Success(Data::Action(x))) if x.action_category == "like"));
    assert!(matches!(action_recorded(Err("w".to_string()), a), Err(Rejection::SubmitAnAction(_))));
}

#[test]
fn counters_at_the_edge() {
    let mut e = engagement(&[], &[], &[]);
    e.stat.like = i32::MAX;
    let found = Ok(Some(e));
    assert!(!target_fits(&found, &action("like", "post"), &"s".to_string()));
    assert!(target_fits(&found, &action("watch", "post"), &"s".to_string()));
    let mut e = engagement(&[], &["s"], &[]);
    e.stat.like = i32::MIN;
    assert!(!target_fits(&Ok(Some(e)), &action("like", "post"), &"s".to_string()));
    assert!(target_fits(&Ok(None), &action("like", "post"), &"s".to_string()));
}

fn run(pieces: i32, sequence: i32, n: usize) -> Vec<PageDecision> {
    let mut p = Paginator::new(pieces, sequence);
    (0..n).map(|_| { assert!(p.next_fits()); p.decide() }).collect()
}

#[test]
fn pages_select_a_window() {
    let (skip, take, stop) = (PageDecision::Skip, PageDecision::Take, PageDecision::Stop);
    assert_eq!(run(2, 2, 6), vec![skip, skip, take, take, stop, stop]);
    assert_eq!(run(3, 1, 4), vec![take, take, take, stop]);
    assert_eq!(run(0, 1, 2), vec![stop, stop]);
}

#[test]
fn each_post_on_one_page() {
    let pieces = 3;
    for k in 1..=10usize {
        let mut pages = 0;
        for seq in 1..=5 {
            if run(pieces, seq, k)[k - 1] == PageDecision::Take {
                pages += 1;
                assert_eq!(seq as usize, (k - 1) / pieces as usize + 1);
            }
        }
        assert_eq!(pages, 1);
    }
}

#[test]
fn paging_overflow_is_detected() {
    let p = Paginator::new(i32::MAX, 3);
    assert!(!p.next_fits());
    let p = Paginator::new(5, i32::MIN);
    assert!(!p.next_fits());
    let p = Paginator::new(1, 1);
    assert!(p.next_fits());
}

#[test]
fn page_requests() {
    let ok = GetPostsConfig { pieces: "10".to_string(), sequence: "2".to_string() };
    assert!(matches!(posts_page(&ok), Step::Next(_)));
    let bad = GetPostsConfig { pieces: "ten".to_string(), sequence: "2".to_string() };
    match posts_page(&bad) {
        Step::Done(Err(Rejection::GetPosts(e))) => assert_eq!(e.0, "invalid digit found in string"),
        _ => panic!(),
    }
    let bad = GetFavoritePostsWithStudentIdConfig { pieces: "1".to_string(), sequence: "".to_string() };
    match favorites_page(&bad) {
        Step::Done(Err(Rejection::GetFavoritePostsWithStudentId(e))) => {
            assert_eq!(e.0, "cannot parse integer from empty string")
        },
        _ => panic!(),
    }
}

#[test]
fn comment_lookups() {
    assert_eq!(failure_text(&comment_found(Ok(None))), "该帖子不存在");
    assert!(matches!(comment_found(Err("e".to_string())), Err(Rejection::GetCommentWithId(_))));
    let c = new_comment_record("c1".to_string(), "hi".to_string(), vec![], "u".to_string(), 7);
    assert!(matches!(comment_found(Ok(Some(c))), Ok(Reply::Success(Data::Comment(c))) if c.comment_id == "c1"));
}

#[test]
fn new_posts_start_empty() {
    let np = NewPost { title: "t".to_string(), content: "c".to_string(), time: "1.5".to_string(), files: vec![] };
    let p = new_post_record("p9".to_string(), np, "u1".to_string(), 1.5f64.to_bits());
    assert_eq!(p.post_id, "p9");
    assert_eq!(p.title, "t");
    assert_eq!(p.user_id, "u1");
    assert_eq!(f64::from_bits(p.time), 1.5);
    assert_eq!((p.stat.watch, p.stat.like, p.stat.favorite, p.stat.comment), (0, 0, 0, 0));
    assert!(p.comment_ids.is_empty() && p.like_ids.is_empty() && p.watch_ids.is_empty() && p.favorite_ids.is_empty());
    assert!(matches!(post_created(Ok(()), p), Ok(Reply::Success(Data::Post(_)))));
}

#[test]
fn comments_attach_to_their_parent() {
    assert!(matches!(comment_parent(&"post".to_string()), Step::Next(TargetKind::Post)));
    assert!(matches!(comment_parent(&"comment".to_string()), Step::Next(TargetKind::Comment)));
    match comment_parent(&"x".to_string()) {
        Step::Done(Err(Rejection::SubmitNewComment(e))) => assert_eq!(e.0, "评论对象类型不存在"),
        _ => panic!(),
    }
    match attach_comment(Ok(Some(ids(&["c1"]))), "c2".to_string()) {
        Step::Next(v) => assert_eq!(v, ids(&["c1", "c2"])),
        _ => panic!(),
    }
    match attach_comment(Ok(None), "c2".to_string()) {
        Step::Done(r) => assert_eq!(failure_text(&r), "评论对象不存在"),
        _ => panic!(),
    }
    let c = new_comment_record("c2".to_string(), "x".to_string(), vec![], "u".to_string(), 0);
    assert!(matches!(comment_created(Err("w".to_string()), c), Err(Rejection::SubmitNewComment(_))));
}

#[test]
fn removing_comments_needs_all_of_them() {
    let req = CommentRemoving { comment_ids: ids(&["a", "b"]) };
    assert!(matches!(removal_allowed(2, &req), Step::Next(())));
    match removal_allowed(1, &req) {
        Step::Done(r) => assert_eq!(failure_text(&r), "不能删除不存在的评论"),
        _ => panic!(),
    }
    assert!(matches!(comments_removed(Ok(())), Ok(Reply::Success(Data::Empty))));
    let _ = Endpoint::SubmitCommentRemoving;
}

#[test]
fn taking_back_the_last_like_and_giving_it_again_restores() {
    let before = engagement(&[], &["b", "a"], &[]);
    let once = apply_action(before.clone(), ActionKind::Like, "a".to_string());
    assert_eq!(once.like_ids, ids(&["b"]));
    let twice = apply_action(once, ActionKind::Like, "a".to_string());
    assert_eq!(twice.like_ids, before.like_ids);
    assert_eq!(twice.stat.like, before.stat.like);
    // an earlier like comes back at the end
    let before = engagement(&[], &["a", "b"], &[]);
    let once = apply_action(before, ActionKind::Like, "a".to_string());
    let twice = apply_action(once, ActionKind::Like, "a".to_string());
    assert_eq!(twice.like_ids, ids(&["b", "a"]));
}
