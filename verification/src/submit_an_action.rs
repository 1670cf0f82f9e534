//! Watching, liking and marking as favourite a post or a comment.
use vstd::prelude::*;
use crate::config::STATS;
use crate::reply::{Data, Endpoint, Reply, Rejection, Response, Step, fails_with, failure, finish,
    reject, rejection, rejected_with, rejection_for};

verus! {

/// What a signed-in user did: `action_category` is `watch`, `like` or
/// `favorite`; `object_acted_on` is `post` or `comment`.
#[derive(Clone, Debug)]
pub struct Action {
    pub action_category: String,
    pub object_acted_on: String,
    pub post_or_comment_id_acted_on: String,
}

/// Raised when recording an action fails.
#[derive(Debug)]
pub struct FailedToSubmitAnAction(pub String);

/// The three kinds of action.
#[derive(Clone, Copy, Debug, PartialEq, Eq, Structural)]
pub enum ActionKind {
    Watch,
    Like,
    Favorite,
}

/// What an action is about.
#[derive(Clone, Copy, Debug, PartialEq, Eq, Structural)]
pub enum TargetKind {
    Post,
    Comment,
}

/// The kind an action category names, if any.
pub open spec fn kind_named(category: Seq<char>) -> Option<ActionKind> {
    if category == "watch"@ {
        Some(ActionKind::Watch)
    } else if category == "like"@ {
        Some(ActionKind::Like)
    } else if category == "favorite"@ {
        Some(ActionKind::Favorite)
    } else {
        None
    }
}

pub fn action_kind(category: &String) -> (r: Option<ActionKind>)
    ensures
        r == kind_named(category@),
{
    if *category == String::from_str("watch") {
        Some(ActionKind::Watch)
    } else if *category == String::from_str("like") {
        Some(ActionKind::Like)
    } else if *category == String::from_str("favorite") {
        Some(ActionKind::Favorite)
    } else {
        None
    }
}

/// The counters and id lists of a post or a comment that actions change.
#[derive(Clone, Debug)]
pub struct Engagement {
    pub stat: STATS,
    pub watch_ids: Vec<String>,
    pub like_ids: Vec<String>,
    pub favorite_ids: Vec<String>,
}

/// [`Engagement`] as values: counters and the ids as character sequences.
pub struct EngagementView {
    pub stat: STATS,
    pub watch_ids: Seq<Seq<char>>,
    pub like_ids: Seq<Seq<char>>,
    pub favorite_ids: Seq<Seq<char>>,
}

impl View for Engagement {
    type V = EngagementView;

    open spec fn view(&self) -> EngagementView {
        EngagementView {
            stat: self.stat,
            watch_ids: self.watch_ids.deep_view(),
            like_ids: self.like_ids.deep_view(),
            favorite_ids: self.favorite_ids.deep_view(),
        }
    }
}

/// `ids` after `id` toggles its mark: its first occurrence goes if it has
/// one, else it is appended.
pub open spec fn toggled(ids: Seq<Seq<char>>, id: Seq<char>) -> Seq<Seq<char>> {
    match ids.index_of_first(id) {
        Some(i) => ids.remove(i),
        None => ids.push(id),
    }
}

/// A counter after `id` toggles its mark in `ids`.
pub open spec fn toggled_count(count: i32, ids: Seq<Seq<char>>, id: Seq<char>) -> int {
    if ids.contains(id) {
        count - 1
    } else {
        count + 1
    }
}

/// The counters and lists after the student `id` performs `kind`: a watch is
/// counted and recorded each time; a like or a favourite is taken back when
/// the student already gave one, and given otherwise.
pub open spec fn engagement_after(e: EngagementView, kind: ActionKind, id: Seq<char>) -> EngagementView {
    match kind {
        ActionKind::Watch => EngagementView {
            stat: STATS { watch: (e.stat.watch + 1) as i32, ..e.stat },
            watch_ids: e.watch_ids.push(id),
            ..e
        },
        ActionKind::Like => EngagementView {
            stat: STATS { like: toggled_count(e.stat.like, e.like_ids, id) as i32, ..e.stat },
            like_ids: toggled(e.like_ids, id),
            ..e
        },
        ActionKind::Favorite => EngagementView {
            stat: STATS {
                favorite: toggled_count(e.stat.favorite, e.favorite_ids, id) as i32,
                ..e.stat
            },
            favorite_ids: toggled(e.favorite_ids, id),
            ..e
        },
    }
}

/// The counter that `kind` changes stays within `i32`.
pub open spec fn action_in_range(e: EngagementView, kind: ActionKind, id: Seq<char>) -> bool {
    match kind {
        ActionKind::Watch => e.stat.watch < i32::MAX,
        ActionKind::Like => i32::MIN <= toggled_count(e.stat.like, e.like_ids, id) <= i32::MAX,
        ActionKind::Favorite => i32::MIN <= toggled_count(e.stat.favorite, e.favorite_ids, id)
            <= i32::MAX,
    }
}

/// The position of the first `id` in `ids`.
fn first_position(ids: &Vec<String>, id: &String) -> (r: Option<usize>)
    ensures
        match r {
            Some(i) => ids.deep_view().index_of_first(id@) == Some(i as int),
            None => ids.deep_view().index_of_first(id@) is None,
        },
{
    let ghost dv = ids.deep_view();
    proof {
        dv.index_of_first_ensures(id@);
    }
    let n = ids.len();
    for i in 0..n
        invariant
            n == ids.len(),
            dv == ids.deep_view(),
            dv.len() == n,
            forall|j: int| 0 <= j < i ==> dv[j] != id@,
            match dv.index_of_first(id@) {
                Some(index) => {
                    &&& dv.contains(id@)
                    &&& 0 <= index < dv.len()
                    &&& dv[index] == id@
                    &&& forall|j: int| 0 <= j < index < dv.len() ==> dv[j] != id@
                },
                None => !dv.contains(id@),
            },
    {
        if ids[i] == *id {
            assert(dv[i as int] == id@);
            assert(dv.contains(id@));
            return Some(i);
        }
    }
    proof {
        if dv.contains(id@) {
            let k = choose|k: int| 0 <= k < dv.len() && dv[k] == id@;
            assert(dv[k] != id@);
        }
    }
    None
}

/// Toggles the mark of `id` in `ids` and moves `count` with it.
fn toggle(ids: &mut Vec<String>, count: i32, id: String) -> (r: i32)
    requires
        i32::MIN <= toggled_count(count, old(ids).deep_view(), id@) <= i32::MAX,
    ensures
        final(ids).deep_view() == toggled(old(ids).deep_view(), id@),
        r == toggled_count(count, old(ids).deep_view(), id@),
{
    let ghost before = ids.deep_view();
    proof {
        before.index_of_first_ensures(id@);
    }
    match first_position(ids, &id) {
        Some(i) => {
            ids.remove(i);
            assert(ids.deep_view() =~= before.remove(i as int));
            count - 1
        },
        None => {
            ids.push(id);
            assert(ids.deep_view() =~= before.push(id@));
            count + 1
        },
    }
}

/// The counters and lists after the student `student_id` performs `kind`.
pub fn apply_action(e: Engagement, kind: ActionKind, student_id: String) -> (r: Engagement)
    requires
        action_in_range(e@, kind, student_id@),
    ensures
        r@ == engagement_after(e@, kind, student_id@),
{
    let mut e = e;
    let ghost before = e@;
    match kind {
        ActionKind::Watch => {
            e.stat.watch = e.stat.watch + 1;
            let ghost w = e.watch_ids.deep_view();
            e.watch_ids.push(student_id);
            assert(e.watch_ids.deep_view() =~= w.push(student_id@));
        },
        ActionKind::Like => {
            let c = toggle(&mut e.like_ids, e.stat.like, student_id);
            e.stat.like = c;
        },
        ActionKind::Favorite => {
            let c = toggle(&mut e.favorite_ids, e.stat.favorite, student_id);
            e.stat.favorite = c;
        },
    }
    e
}

/// Whether performing `kind` keeps the changed counter within `i32`.
pub fn action_fits(e: &Engagement, kind: ActionKind, student_id: &String) -> (r: bool)
    ensures
        r == action_in_range(e@, kind, student_id@),
{
    match kind {
        ActionKind::Watch => e.stat.watch < i32::MAX,
        ActionKind::Like => {
            let present = first_position(&e.like_ids, student_id).is_some();
            proof {
                e.like_ids.deep_view().index_of_first_ensures(student_id@);
            }
            if present {
                e.stat.like > i32::MIN
            } else {
                e.stat.like < i32::MAX
            }
        },
        ActionKind::Favorite => {
            let present = first_position(&e.favorite_ids, student_id).is_some();
            proof {
                e.favorite_ids.deep_view().index_of_first_ensures(student_id@);
            }
            if present {
                e.stat.favorite > i32::MIN
            } else {
                e.stat.favorite < i32::MAX
            }
        },
    }
}

/// No id occurs twice.
pub open spec fn no_repeats(ids: Seq<Seq<char>>) -> bool {
    forall|i: int, j: int| 0 <= i < j < ids.len() ==> ids[i] != ids[j]
}

/// The counters equal the numbers of ids they count.
pub open spec fn tallies_match(e: EngagementView) -> bool {
    &&& e.stat.watch == e.watch_ids.len()
    &&& e.stat.like == e.like_ids.len()
    &&& e.stat.favorite == e.favorite_ids.len()
}

/// The list of marks that `kind` toggles (likes or favourites).
pub open spec fn marks(e: EngagementView, kind: ActionKind) -> Seq<Seq<char>> {
    match kind {
        ActionKind::Like => e.like_ids,
        _ => e.favorite_ids,
    }
}

proof fn lemma_first_of_push_absent(ids: Seq<Seq<char>>, id: Seq<char>)
    requires
        !ids.contains(id),
    ensures
        ids.push(id).index_of_first(id) == Some(ids.len() as int),
{
    let p = ids.push(id);
    p.index_of_first_ensures(id);
    assert(p[ids.len() as int] == id);
    match p.index_of_first(id) {
        Some(k) => {
            if k < ids.len() {
                assert(ids[k] == id);
                assert(ids.contains(id));
            }
        },
        None => {
            assert(p.contains(id));
        },
    }
}

proof fn lemma_toggle_len(ids: Seq<Seq<char>>, id: Seq<char>)
    ensures
        toggled(ids, id).len() == if ids.contains(id) {
            ids.len() - 1
        } else {
            ids.len() + 1int
        },
{
    ids.index_of_first_ensures(id);
}

proof fn lemma_toggle_present(ids: Seq<Seq<char>>, id: Seq<char>)
    requires
        ids.contains(id),
        no_repeats(ids),
    ensures
        toggled(ids, id).len() == ids.len() - 1,
        !toggled(ids, id).contains(id),
        no_repeats(toggled(ids, id)),
{
    ids.index_of_first_ensures(id);
    let i = ids.index_of_first(id).unwrap();
    let r = ids.remove(i);
    assert(r == toggled(ids, id));
    assert forall|k: int| 0 <= k < r.len() implies r[k] != id by {
        if k < i {
            assert(r[k] == ids[k]);
        } else {
            assert(r[k] == ids[k + 1]);
        }
    }
    assert forall|a: int, b: int| 0 <= a < b < r.len() implies r[a] != r[b] by {
        let a2 = if a < i { a } else { a + 1 };
        let b2 = if b < i { b } else { b + 1 };
        assert(r[a] == ids[a2]);
        assert(r[b] == ids[b2]);
    }
}

proof fn lemma_toggle_absent(ids: Seq<Seq<char>>, id: Seq<char>)
    requires
        !ids.contains(id),
        no_repeats(ids),
    ensures
        toggled(ids, id) == ids.push(id),
        toggled(ids, id).contains(id),
        no_repeats(toggled(ids, id)),
{
    ids.index_of_first_ensures(id);
    let r = ids.push(id);
    assert(r[ids.len() as int] == id);
    assert forall|a: int, b: int| 0 <= a < b < r.len() implies r[a] != r[b] by {
        if b == ids.len() {
            assert(r[a] == ids[a]);
        }
    }
}

/// Every action whose counter stays within `i32` keeps the counters equal
/// to the lists they count, and keeps likes and favourites free of repeats
/// where they were.
pub proof fn lemma_action_keeps_tallies(e: EngagementView, kind: ActionKind, id: Seq<char>)
    requires
        tallies_match(e),
        action_in_range(e, kind, id),
    ensures
        tallies_match(engagement_after(e, kind, id)),
        no_repeats(e.like_ids) ==> no_repeats(engagement_after(e, kind, id).like_ids),
        no_repeats(e.favorite_ids) ==> no_repeats(engagement_after(e, kind, id).favorite_ids),
{
    match kind {
        ActionKind::Watch => {},
        ActionKind::Like => {
            lemma_toggle_len(e.like_ids, id);
            if no_repeats(e.like_ids) {
                if e.like_ids.contains(id) {
                    lemma_toggle_present(e.like_ids, id);
                } else {
                    lemma_toggle_absent(e.like_ids, id);
                }
            }
        },
        ActionKind::Favorite => {
            lemma_toggle_len(e.favorite_ids, id);
            if no_repeats(e.favorite_ids) {
                if e.favorite_ids.contains(id) {
                    lemma_toggle_present(e.favorite_ids, id);
                } else {
                    lemma_toggle_absent(e.favorite_ids, id);
                }
            }
        },
    }
}

/// A like (or a favourite) given and then taken back by the same
/// student, or taken back and then given again when the student's mark is
/// the last one, leaves the counters and lists as they were.
pub proof fn lemma_toggle_twice_restores(e: EngagementView, kind: ActionKind, id: Seq<char>)
    requires
        kind != ActionKind::Watch,
        !marks(e, kind).contains(id) || marks(e, kind).index_of_first(id) == Some(
            marks(e, kind).len() - 1,
        ),
    ensures
        action_in_range(e, kind, id) ==> action_in_range(engagement_after(e, kind, id), kind, id),
        engagement_after(engagement_after(e, kind, id), kind, id) == e,
{
    let ids = marks(e, kind);
    let c: i32 = if kind == ActionKind::Like {
        e.stat.like
    } else {
        e.stat.favorite
    };
    assert(((c + 1) as i32 - 1) as i32 == c) by (bit_vector);
    assert(((c - 1) as i32 + 1) as i32 == c) by (bit_vector);
    ids.index_of_first_ensures(id);
    if !ids.contains(id) {
        lemma_first_of_push_absent(ids, id);
        assert(ids.push(id).remove(ids.len() as int) =~= ids);
        assert(ids.push(id).contains(id)) by {
            assert(ids.push(id)[ids.len() as int] == id);
        }
    } else {
        let last = ids.len() - 1;
        let rest = ids.remove(last);
        assert(!rest.contains(id)) by {
            assert forall|k: int| 0 <= k < rest.len() implies rest[k] != id by {
                assert(rest[k] == ids[k]);
            }
        }
        rest.index_of_first_ensures(id);
        assert(rest.push(id) =~= ids);
    }
    let once = engagement_after(e, kind, id);
    let twice = engagement_after(once, kind, id);
    assert(twice.stat == e.stat);
}

/// `id` occurs at most once in `ids`.
pub open spec fn marked_at_most_once(ids: Seq<Seq<char>>, id: Seq<char>) -> bool {
    forall|i: int, j: int| 0 <= i < j < ids.len() && ids[i] == id ==> ids[j] != id
}

/// When the student has marked at most once, a like (or a favourite) makes
/// the student a marker exactly when they were not one before.
pub proof fn lemma_toggle_flips_mark(e: EngagementView, kind: ActionKind, id: Seq<char>)
    requires
        kind != ActionKind::Watch,
        marked_at_most_once(marks(e, kind), id),
    ensures
        marks(engagement_after(e, kind, id), kind).contains(id) <==> !marks(e, kind).contains(id),
{
    let ids = marks(e, kind);
    ids.index_of_first_ensures(id);
    if ids.contains(id) {
        let i = ids.index_of_first(id).unwrap();
        let r = ids.remove(i);
        assert(r == toggled(ids, id));
        assert forall|k: int| 0 <= k < r.len() implies r[k] != id by {
            if k < i {
                assert(r[k] == ids[k]);
            } else {
                assert(r[k] == ids[k + 1]);
            }
        }
    } else {
        assert(ids.push(id)[ids.len() as int] == id);
    }
}

/// An action changes only its own counter and list; the comment counter
/// and the other lists stay as they were.
pub proof fn lemma_action_is_local(e: EngagementView, kind: ActionKind, id: Seq<char>)
    ensures
        engagement_after(e, kind, id).stat.comment == e.stat.comment,
        kind != ActionKind::Watch ==> engagement_after(e, kind, id).watch_ids == e.watch_ids
            && engagement_after(e, kind, id).stat.watch == e.stat.watch,
        kind != ActionKind::Like ==> engagement_after(e, kind, id).like_ids == e.like_ids
            && engagement_after(e, kind, id).stat.like == e.stat.like,
        kind != ActionKind::Favorite ==> engagement_after(e, kind, id).favorite_ids
            == e.favorite_ids && engagement_after(e, kind, id).stat.favorite == e.stat.favorite,
{
}

pub const REASON_NO_SUCH_TARGET: &'static str = "评论对象不存在";
pub const REASON_NO_SUCH_ACTION: &'static str = "不存在该类型动作";
pub const REASON_NO_SUCH_TARGET_KIND: &'static str = "评论对象类型不存在";

/// The kind of object a name designates, if any.
pub open spec fn target_named(object: Seq<char>) -> Option<TargetKind> {
    if object == "post"@ {
        Some(TargetKind::Post)
    } else if object == "comment"@ {
        Some(TargetKind::Comment)
    } else {
        None
    }
}

/// What the action is about; an unknown kind of object is an error.
pub fn action_target(action: &Action) -> (r: Step<TargetKind>)
    ensures
        match target_named(action.object_acted_on@) {
            Some(k) => r == Step::<TargetKind>::Next(k),
            None => r matches Step::Done(resp) && rejected_with(
                resp,
                Endpoint::SubmitAnAction,
                REASON_NO_SUCH_TARGET_KIND@,
            ),
        },
{
    if action.object_acted_on == String::from_str("post") {
        Step::Next(TargetKind::Post)
    } else if action.object_acted_on == String::from_str("comment") {
        Step::Next(TargetKind::Comment)
    } else {
        Step::Done(rejection(Endpoint::SubmitAnAction, REASON_NO_SUCH_TARGET_KIND))
    }
}

/// The counter an action would change stays within `i32`.
pub open spec fn target_in_range(
    found: Result<Option<Engagement>, String>,
    action: Action,
    student_id: Seq<char>,
) -> bool {
    match (found, kind_named(action.action_category@)) {
        (Ok(Some(e)), Some(k)) => action_in_range(e@, k, student_id),
        _ => true,
    }
}

/// Whether [`act_on_target`] may be called: the counter it changes stays
/// within `i32`.
pub fn target_fits(found: &Result<Option<Engagement>, String>, action: &Action, student_id: &String) -> (r: bool)
    ensures
        r == target_in_range(*found, *action, student_id@),
{
    match found {
        Ok(Some(e)) => match action_kind(&action.action_category) {
            Some(k) => {
                action_fits(e, k, student_id)
            },
            None => true,
        },
        _ => true,
    }
}

/// The action applied to the looked-up post or comment: the lookup must
/// succeed and find it, and the action must be a known kind.
pub fn act_on_target(found: Result<Option<Engagement>, String>, action: &Action, student_id: String) -> (r: Step<Engagement>)
    requires
        target_in_range(found, *action, student_id@),
    ensures
        match found {
            Err(e) => r == Step::<Engagement>::Done(
                Err(rejection_for(Endpoint::SubmitAnAction, e)),
            ),
            Ok(None) => r matches Step::Done(resp) && fails_with(resp, REASON_NO_SUCH_TARGET@),
            Ok(Some(e)) => match kind_named(action.action_category@) {
                None => r matches Step::Done(resp) && fails_with(resp, REASON_NO_SUCH_ACTION@),
                Some(k) => r matches Step::Next(n) && n@ == engagement_after(e@, k, student_id@),
            },
        },
{
    match found {
        Err(e) => Step::Done(Err(reject(Endpoint::SubmitAnAction, e))),
        Ok(None) => Step::Done(failure(REASON_NO_SUCH_TARGET)),
        Ok(Some(e)) => match action_kind(&action.action_category) {
            None => Step::Done(failure(REASON_NO_SUCH_ACTION)),
            Some(k) => Step::Next(apply_action(e, k, student_id)),
        },
    }
}

/// The answer once the changed counters and lists are stored: the action
/// itself.
pub fn action_recorded(written: Result<(), String>, action: Action) -> (r: Response)
    ensures
        match written {
            Ok(_) => r == Ok::<Reply, Rejection>(Reply::Success(Data::Action(action))),
            Err(e) => r == Err::<Reply, Rejection>(
                rejection_for(Endpoint::SubmitAnAction, e),
            ),
        },
{
    finish(Endpoint::SubmitAnAction, written, Data::Action(action))
}

} // verus!
