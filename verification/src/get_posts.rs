//! One page of all posts, newest first, and the paging rule it shares with the favourites.
use vstd::prelude::*;
use crate::config::POST;
use crate::number::parse_i32;
use crate::reply::{Data, Endpoint, Reply, Rejection, Response, Step, reject, rejection_for};

verus! {

/// Which page to read: `pieces` posts per page, page number `sequence`
/// (from 1), both as decimal text.
#[derive(Clone, Debug)]
pub struct GetPostsConfig {
    pub pieces: String,
    pub sequence: String,
}

/// Raised when reading the posts fails.
#[derive(Debug)]
pub struct FailedToGetPosts(pub String);

/// What to do with the next post of a listing sorted newest first.
#[derive(Clone, Copy, Debug, PartialEq, Eq, Structural)]
pub enum PageDecision {
    /// It lies before the requested page.
    Skip,
    /// It belongs to the page.
    Take,
    /// It lies after the page; so do all later posts.
    Stop,
}

/// The position (from 1) of the last post before page `sequence` of
/// `pieces` posts each.
pub open spec fn page_start(pieces: int, sequence: int) -> int {
    (sequence - 1) * pieces
}

/// The position of the last post of page `sequence`.
pub open spec fn page_end(pieces: int, sequence: int) -> int {
    sequence * pieces
}

/// The decision for the post at position `k` (from 1).
pub open spec fn page_decision(pieces: int, sequence: int, k: int) -> PageDecision {
    if k <= page_start(pieces, sequence) {
        PageDecision::Skip
    } else if k <= page_end(pieces, sequence) {
        PageDecision::Take
    } else {
        PageDecision::Stop
    }
}

pub open spec fn fits_i32(x: int) -> bool {
    i32::MIN <= x <= i32::MAX
}

/// Counts the posts of a listing and places each relative to one page.
#[derive(Debug)]
pub struct Paginator {
    pieces: i32,
    sequence: i32,
    seen: i32,
}

/// The page size, the page number and how many posts were counted.
pub struct PaginatorView {
    pub pieces: int,
    pub sequence: int,
    pub seen: int,
}

impl View for Paginator {
    type V = PaginatorView;

    closed spec fn view(&self) -> PaginatorView {
        PaginatorView { pieces: self.pieces as int, sequence: self.sequence as int, seen: self.seen as int }
    }
}

/// Placing the next post needs only `i32` arithmetic: its position, the
/// start of the page and, past the start, the end of the page all fit.
pub open spec fn next_fits(p: PaginatorView) -> bool {
    &&& p.seen < i32::MAX
    &&& fits_i32(p.sequence - 1)
    &&& fits_i32(page_start(p.pieces, p.sequence))
    &&& p.seen + 1 > page_start(p.pieces, p.sequence) ==> fits_i32(page_end(p.pieces, p.sequence))
}

impl Paginator {
    /// A paginator for page `sequence` of `pieces` posts, before any post.
    pub fn new(pieces: i32, sequence: i32) -> (r: Paginator)
        ensures
            r@.pieces == pieces,
            r@.sequence == sequence,
            r@.seen == 0,
    {
        Paginator { pieces, sequence, seen: 0 }
    }

    /// Whether [`Paginator::decide`] may be called.
    pub fn next_fits(&self) -> (r: bool)
        ensures
            r == next_fits(self@),
    {
        if self.seen == i32::MAX || self.sequence == i32::MIN {
            return false;
        }
        let a: i64 = self.sequence as i64 - 1;
        let b: i64 = self.pieces as i64;
        assert(-2147483648 * 2147483648 <= a * b <= 2147483648 * 2147483648) by (nonlinear_arith)
            requires
                -2147483648 <= a <= 2147483647,
                -2147483648 <= b <= 2147483647,
        ;
        let start: i64 = a * b;
        if start < i32::MIN as i64 || start > i32::MAX as i64 {
            return false;
        }
        if self.seen as i64 + 1 > start {
            let c: i64 = self.sequence as i64;
            assert(-2147483648 * 2147483648 <= c * b <= 2147483648 * 2147483648) by (nonlinear_arith)
                requires
                    -2147483648 <= c <= 2147483647,
                    -2147483648 <= b <= 2147483647,
            ;
            let end: i64 = c * b;
            end >= i32::MIN as i64 && end <= i32::MAX as i64
        } else {
            true
        }
    }

    /// Counts one more post and places it.
    pub fn decide(&mut self) -> (r: PageDecision)
        requires
            next_fits(old(self)@),
        ensures
            final(self)@ == (PaginatorView { seen: old(self)@.seen + 1, ..old(self)@ }),
            r == page_decision(old(self)@.pieces, old(self)@.sequence, old(self)@.seen + 1),
    {
        self.seen = self.seen + 1;
        let start = (self.sequence - 1) * self.pieces;
        if self.seen <= start {
            PageDecision::Skip
        } else {
            let end = self.sequence * self.pieces;
            if self.seen <= end {
                PageDecision::Take
            } else {
                PageDecision::Stop
            }
        }
    }
}

/// The page size and number of a request, each read as an `i32`, the size
/// first; text that is not an `i32` ends the request with the parse error.
pub fn page_request(ep: Endpoint, pieces: &String, sequence: &String) -> (r: Step<Paginator>)
    ensures
        match (crate::number::parsed_i32(pieces@), crate::number::parsed_i32(sequence@)) {
            (Ok(p), Ok(s)) => r matches Step::Next(pg) && pg@ == (PaginatorView { pieces: p, sequence: s, seen: 0 }),
            (Err(k), _) => exists|m: String| m@ == crate::number::int_error_message(k)
                && r == Step::<Paginator>::Done(Err(rejection_for(ep, m))),
            (Ok(_), Err(k)) => exists|m: String| m@ == crate::number::int_error_message(k)
                && r == Step::<Paginator>::Done(Err(rejection_for(ep, m))),
        },
{
    proof {
        crate::number::lemma_parsed_in_range(pieces@);
        crate::number::lemma_parsed_in_range(sequence@);
    }
    match parse_i32(pieces.as_str()) {
        Err(m) => {
            let r = Step::Done(Err(reject(ep, m)));
            assert(r == Step::<Paginator>::Done(Err(rejection_for(ep, m))));
            r
        },
        Ok(p) => match parse_i32(sequence.as_str()) {
            Err(m) => {
                let r = Step::Done(Err(reject(ep, m)));
                assert(r == Step::<Paginator>::Done(Err(rejection_for(ep, m))));
                r
            },
            Ok(s) => Step::Next(Paginator::new(p, s)),
        },
    }
}

/// The paginator for a request, or the error when its numbers do not parse.
pub fn posts_page(config: &GetPostsConfig) -> (r: Step<Paginator>)
    ensures
        match (crate::number::parsed_i32(config.pieces@), crate::number::parsed_i32(config.sequence@)) {
            (Ok(p), Ok(s)) => r matches Step::Next(pg) && pg@ == (PaginatorView { pieces: p, sequence: s, seen: 0 }),
            (Err(k), _) => exists|m: String| m@ == crate::number::int_error_message(k)
                && r == Step::<Paginator>::Done(Err(rejection_for(Endpoint::GetPosts, m))),
            (Ok(_), Err(k)) => exists|m: String| m@ == crate::number::int_error_message(k)
                && r == Step::<Paginator>::Done(Err(rejection_for(Endpoint::GetPosts, m))),
        },
{
    page_request(Endpoint::GetPosts, &config.pieces, &config.sequence)
}

/// The answer carrying the posts of the page.
pub fn posts_reply(posts: Vec<POST>) -> (r: Response)
    ensures
        r == Ok::<Reply, Rejection>(Reply::Success(Data::Posts(posts))),
{
    Ok(Reply::Success(Data::Posts(posts)))
}

/// With pages of at least one post, every position from 1 on falls on
/// exactly one page: the page numbered `(k - 1) / pieces + 1`.
pub proof fn lemma_each_post_on_one_page(pieces: int, k: int, sequence: int)
    requires
        pieces > 0,
        k >= 1,
    ensures
        page_decision(pieces, (k - 1) / pieces + 1, k) == PageDecision::Take,
        page_decision(pieces, sequence, k) == PageDecision::Take ==> sequence == (k - 1) / pieces + 1,
{
    let s = (k - 1) / pieces + 1;
    let q = (k - 1) / pieces;
    let r = (k - 1) % pieces;
    assert(k - 1 == q * pieces + r && 0 <= r < pieces) by (nonlinear_arith)
        requires
            pieces > 0,
            q == (k - 1) / pieces,
            r == (k - 1) % pieces,
    ;
    assert((s - 1) * pieces == q * pieces) by (nonlinear_arith)
        requires
            s == q + 1,
    ;
    assert(s * pieces == q * pieces + pieces) by (nonlinear_arith)
        requires
            s == q + 1,
    ;
    if page_decision(pieces, sequence, k) == PageDecision::Take {
        assert((sequence - 1) * pieces < k <= sequence * pieces);
        if sequence < s {
            assert(sequence * pieces <= (s - 1) * pieces) by (nonlinear_arith)
                requires
                    sequence <= s - 1,
                    pieces > 0,
            ;
        }
        if sequence > s {
            assert(s * pieces <= (sequence - 1) * pieces) by (nonlinear_arith)
                requires
                    s <= sequence - 1,
                    pieces > 0,
            ;
        }
    }
}

/// A page takes a run of exactly `pieces` consecutive positions, and
/// once a position lies past the page, so does every later one.
pub proof fn lemma_page_is_a_window(pieces: int, sequence: int, k1: int, k2: int)
    ensures
        page_end(pieces, sequence) - page_start(pieces, sequence) == pieces,
        k1 <= k2 && page_decision(pieces, sequence, k1) == PageDecision::Stop ==> page_decision(
            pieces,
            sequence,
            k2,
        ) == PageDecision::Stop,
        k1 <= k2 && page_decision(pieces, sequence, k2) == PageDecision::Skip ==> page_decision(
            pieces,
            sequence,
            k1,
        ) == PageDecision::Skip,
{
    assert(sequence * pieces - (sequence - 1) * pieces == pieces) by (nonlinear_arith);
}

} // verus!
