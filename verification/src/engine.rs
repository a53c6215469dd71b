//! The decision core of the two stabilization workers.
//!
//! The item worker and the rater worker perform their network and storage
//! calls outside the library; every page, score or count they observe comes
//! back here as a plain value, and the functions below decide what the
//! observation means: whether to throttle, what a rater's score makes of it,
//! how a fetched page advances an item's accumulator, and when an item may
//! be finalized.

use vstd::prelude::*;
use crate::User;
use crate::avg::Avg;
use crate::avg::mean_of;
use crate::catalog::Game;
use crate::token::RegulationToken;
use crate::token::eased;

verus! {

/// Default lower trust bound, in hundredths of a rating point.
pub const LOWER_BOUND: u64 = 200;

/// Default upper trust bound, in hundredths of a rating point.
pub const UPPER_BOUND: u64 = 800;

/// Default miss chance, as the fraction `MISS_NUMER / MISS_DENOM`.
pub const MISS_NUMER: u32 = 1;

pub const MISS_DENOM: u32 = 2;

/// How many rater entries one fetched page holds at most; used only by the
/// backpressure rule.
pub const USER_PAGE_SIZE: u32 = 100;

/// A rater's classification as the item worker observes it: not yet settled
/// by the rater worker, or settled trusted, or settled untrusted.
#[derive(Clone, Copy, Debug, PartialEq, Eq, Structural)]
pub enum UserClass {
    Unknown,
    Trusted,
    Untrusted,
}

/// What a persisted rater row means to the item worker.
pub open spec fn class_of(stable: bool, trusted: bool) -> UserClass {
    if !stable {
        UserClass::Unknown
    } else if trusted {
        UserClass::Trusted
    } else {
        UserClass::Untrusted
    }
}

/// Decode a rater row's flags: the trust flag is meaningful only once the
/// rater is stable.
pub fn classification(stable: bool, trusted: bool) -> (c: UserClass)
    ensures
        c == class_of(stable, trusted),
{
    if !stable {
        UserClass::Unknown
    } else if trusted {
        UserClass::Trusted
    } else {
        UserClass::Untrusted
    }
}

/// Trust classification: a rater is trusted exactly when its aggregate score
/// lies strictly between the configured bounds (boundary scores are
/// untrusted). Scores and bounds are in hundredths of a rating point.
pub fn trust(rating: u64, lower_bound: u64, upper_bound: u64) -> (t: bool)
    ensures
        t == (lower_bound < rating < upper_bound),
{
    lower_bound < rating && rating < upper_bound
}

/// The backpressure rule on exact integers: with a miss chance of
/// `miss_numer / miss_denom`, raters prevail when
/// `floor(games * miss_numer / miss_denom) * page_size < users`.
pub open spec fn prevail_spec(games: int, users: int, miss_numer: int, miss_denom: int,
    page_size: int) -> bool {
    (games * miss_numer / miss_denom) * page_size < users
}

/// Backpressure check of the item worker: true when the backlog of
/// unresolved raters is larger than the rater worker can plausibly clear,
/// so the item worker should sleep instead of producing more raters.
pub fn users_prevail(number_of_games: u32, number_of_users: u32, miss_numer: u32, miss_denom: u32,
    page_size: u32) -> (b: bool)
    requires
        miss_denom > 0,
    ensures
        b == prevail_spec(number_of_games as int, number_of_users as int, miss_numer as int,
            miss_denom as int, page_size as int),
{
    let g = number_of_games as u128;
    let m = miss_numer as u128;
    let d = miss_denom as u128;
    let p = page_size as u128;
    proof {
        let gi = g as int;
        let mi = m as int;
        let di = d as int;
        let pi = p as int;
        assert(gi * mi <= 0xffff_ffff * 0xffff_ffff) by (nonlinear_arith)
            requires
                0 <= gi <= 0xffff_ffff,
                0 <= mi <= 0xffff_ffff,
        ;
        assert(0 <= (gi * mi) / di <= gi * mi) by (nonlinear_arith)
            requires
                di >= 1,
                gi * mi >= 0,
        ;
        assert(((gi * mi) / di) * pi <= (0xffff_ffff * 0xffff_ffff) * 0xffff_ffff)
            by (nonlinear_arith)
            requires
                0 <= (gi * mi) / di <= 0xffff_ffff * 0xffff_ffff,
                0 <= pi <= 0xffff_ffff,
        ;
    }
    let expected: u128 = ((g * m) / d) * p;
    expected < number_of_users as u128
}

/// One rater entry of a fetched page, as the item worker evaluates it: the
/// rater's name, the rating it gave this item (hundredths), and the rater's
/// classification as read back from the store.
#[derive(Clone, Debug)]
pub struct PageEntry {
    pub name: User,
    pub rating: u32,
    pub class: UserClass,
}

/// Every rater on the page has a terminal classification.
pub open spec fn all_classified(s: Seq<PageEntry>) -> bool {
    forall|k: int| 0 <= k < s.len() ==> !(s[k].class is Unknown)
}

/// Length of the longest prefix of the page in which every rater is
/// classified; the scan of a page stops there.
pub open spec fn known_prefix_len(s: Seq<PageEntry>) -> int
    decreases s.len(),
{
    if s.len() == 0 {
        0
    } else if s[0].class is Unknown {
        0
    } else {
        1 + known_prefix_len(s.drop_first())
    }
}

/// Exact sum of the ratings of the trusted raters on the page.
pub open spec fn trusted_sum(s: Seq<PageEntry>) -> int
    decreases s.len(),
{
    if s.len() == 0 {
        0
    } else {
        trusted_sum(s.drop_last()) + (if s.last().class is Trusted {
            s.last().rating as int
        } else {
            0
        })
    }
}

/// How many raters on the page are trusted.
pub open spec fn trusted_count(s: Seq<PageEntry>) -> int
    decreases s.len(),
{
    if s.len() == 0 {
        0
    } else {
        trusted_count(s.drop_last()) + (if s.last().class is Trusted {
            1int
        } else {
            0
        })
    }
}

pub proof fn lemma_trusted_nonneg(s: Seq<PageEntry>)
    ensures
        trusted_sum(s) >= 0,
        trusted_count(s) >= 0,
    decreases s.len(),
{
    if s.len() > 0 {
        lemma_trusted_nonneg(s.drop_last());
    }
}

/// Extending a prefix by one entry adds that entry's contribution.
pub proof fn lemma_trusted_take_succ(s: Seq<PageEntry>, i: int)
    requires
        0 <= i < s.len(),
    ensures
        trusted_sum(s.take(i + 1)) == trusted_sum(s.take(i)) + (if s[i].class is Trusted {
            s[i].rating as int
        } else {
            0
        }),
        trusted_count(s.take(i + 1)) == trusted_count(s.take(i)) + (if s[i].class is Trusted {
            1int
        } else {
            0
        }),
{
    assert(s.take(i + 1).drop_last() =~= s.take(i));
    assert(s.take(i + 1).last() == s[i]);
}

/// A prefix of the page never contributes more than the whole page.
pub proof fn lemma_trusted_take_le(s: Seq<PageEntry>, i: int)
    requires
        0 <= i <= s.len(),
    ensures
        trusted_sum(s.take(i)) <= trusted_sum(s),
        trusted_count(s.take(i)) <= trusted_count(s),
    decreases s.len() - i,
{
    if i == s.len() {
        assert(s.take(i) =~= s);
    } else {
        lemma_trusted_take_succ(s, i);
        lemma_trusted_take_le(s, i + 1);
    }
}

/// The known prefix is a genuine prefix: everything before it is classified,
/// and the entry at its end, if any, is not.
pub proof fn lemma_known_prefix_props(s: Seq<PageEntry>)
    ensures
        0 <= known_prefix_len(s) <= s.len(),
        forall|k: int| 0 <= k < known_prefix_len(s) ==> !(s[k].class is Unknown),
        known_prefix_len(s) < s.len() ==> s[known_prefix_len(s)].class is Unknown,
    decreases s.len(),
{
    if s.len() > 0 && !(s[0].class is Unknown) {
        lemma_known_prefix_props(s.drop_first());
        assert forall|k: int| 0 <= k < known_prefix_len(s) implies !(s[k].class is Unknown) by {
            if k >= 1 {
                assert(s.drop_first()[k - 1] == s[k]);
            }
        }
        if known_prefix_len(s) < s.len() {
            assert(s.drop_first()[known_prefix_len(s.drop_first())] == s[known_prefix_len(s)]);
        }
    }
}

/// The whole page is classified exactly when the known prefix is the page.
pub proof fn lemma_known_prefix_complete(s: Seq<PageEntry>)
    ensures
        (known_prefix_len(s) == s.len()) <==> all_classified(s),
{
    lemma_known_prefix_props(s);
}

/// Evaluate one fetched page against the accumulator, in page order: absorb
/// the rating of every rater classified trusted, skip the untrusted ones,
/// and stop at the first rater not yet classified. Returns whether the whole
/// page was classified, so the scan may go on to the next page.
pub fn absorb_page(avg: &mut Avg, page: &Vec<PageEntry>) -> (all_known: bool)
    requires
        old(avg).n + trusted_count(page@) <= u32::MAX,
        old(avg).sum + trusted_sum(page@) <= u64::MAX,
    ensures
        all_known == all_classified(page@),
        final(avg).n == old(avg).n + trusted_count(page@.take(known_prefix_len(page@))),
        final(avg).sum == old(avg).sum + trusted_sum(page@.take(known_prefix_len(page@))),
{
    proof {
        lemma_known_prefix_props(page@);
        lemma_trusted_nonneg(page@);
    }
    let mut idx: usize = 0;
    while idx < page.len()
        invariant
            0 <= idx <= page@.len(),
            forall|k: int| 0 <= k < idx ==> !(page@[k].class is Unknown),
            avg.n == old(avg).n + trusted_count(page@.take(idx as int)),
            avg.sum == old(avg).sum + trusted_sum(page@.take(idx as int)),
            old(avg).n + trusted_count(page@) <= u32::MAX,
            old(avg).sum + trusted_sum(page@) <= u64::MAX,
        decreases page@.len() - idx,
    {
        let entry = &page[idx];
        proof {
            lemma_trusted_take_succ(page@, idx as int);
            lemma_trusted_take_le(page@, idx as int + 1);
            lemma_trusted_nonneg(page@.take(idx as int));
        }
        match entry.class {
            UserClass::Unknown => {
                proof {
                    lemma_known_prefix_props(page@);
                    assert(known_prefix_len(page@) == idx as int);
                }
                return false;
            },
            UserClass::Trusted => {
                avg.add(entry.rating);
            },
            UserClass::Untrusted => {},
        }
        idx = idx + 1;
    }
    proof {
        assert(page@.take(page@.len() as int) =~= page@);
        lemma_known_prefix_complete(page@);
    }
    true
}

/// Views of a vector of fetched pages.
pub open spec fn page_views(pages: Seq<Vec<PageEntry>>) -> Seq<Seq<PageEntry>> {
    pages.map_values(|p: Vec<PageEntry>| p@)
}

/// Total trusted contribution over a sequence of pages.
pub open spec fn pages_trusted_sum(pages: Seq<Seq<PageEntry>>) -> int
    decreases pages.len(),
{
    if pages.len() == 0 {
        0
    } else {
        trusted_sum(pages[0]) + pages_trusted_sum(pages.drop_first())
    }
}

pub open spec fn pages_trusted_count(pages: Seq<Seq<PageEntry>>) -> int
    decreases pages.len(),
{
    if pages.len() == 0 {
        0
    } else {
        trusted_count(pages[0]) + pages_trusted_count(pages.drop_first())
    }
}

pub proof fn lemma_pages_trusted_nonneg(pages: Seq<Seq<PageEntry>>)
    ensures
        pages_trusted_sum(pages) >= 0,
        pages_trusted_count(pages) >= 0,
    decreases pages.len(),
{
    if pages.len() > 0 {
        lemma_trusted_nonneg(pages[0]);
        lemma_pages_trusted_nonneg(pages.drop_first());
    }
}

/// Outcome of evaluating fetched pages in order against an accumulator
/// `(n0, sum0)`: whether the scan ran past the last page (so the item may be
/// finalized), and the count and sum reached. A page holding a rater that is
/// not yet classified stops the scan inside that page.
pub open spec fn scan_outcome(n0: int, sum0: int, pages: Seq<Seq<PageEntry>>) -> (bool, int, int)
    decreases pages.len(),
{
    if pages.len() == 0 {
        (true, n0, sum0)
    } else {
        let p = pages[0];
        let k = known_prefix_len(p);
        let n1 = n0 + trusted_count(p.take(k));
        let s1 = sum0 + trusted_sum(p.take(k));
        if k < p.len() {
            (false, n1, s1)
        } else {
            scan_outcome(n1, s1, pages.drop_first())
        }
    }
}

/// Evaluate a whole run of fetched pages for one item, as the item worker
/// does page by page with a deterministic feed. Returns whether the item may
/// be finalized; the accumulator holds the state where the scan stopped.
pub fn scan_pages(avg: &mut Avg, pages: &Vec<Vec<PageEntry>>) -> (completed: bool)
    requires
        old(avg).n + pages_trusted_count(page_views(pages@)) <= u32::MAX,
        old(avg).sum + pages_trusted_sum(page_views(pages@)) <= u64::MAX,
    ensures
        (completed, final(avg).n as int, final(avg).sum as int) == scan_outcome(
            old(avg).n as int, old(avg).sum as int, page_views(pages@)),
{
    let ghost all = page_views(pages@);
    proof {
        assert(all.skip(0) =~= all);
    }
    let mut j: usize = 0;
    while j < pages.len()
        invariant
            0 <= j <= pages@.len(),
            all == page_views(pages@),
            all.len() == pages@.len(),
            avg.n + pages_trusted_count(all.skip(j as int)) <= u32::MAX,
            avg.sum + pages_trusted_sum(all.skip(j as int)) <= u64::MAX,
            scan_outcome(old(avg).n as int, old(avg).sum as int, all) == scan_outcome(
                avg.n as int, avg.sum as int, all.skip(j as int)),
        decreases pages@.len() - j,
    {
        let ghost rest = all.skip(j as int);
        proof {
            assert(all[j as int] == pages@[j as int]@);
            assert(rest[0] == all[j as int]);
            assert(rest.drop_first() =~= all.skip(j as int + 1));
            lemma_known_prefix_props(rest[0]);
            lemma_trusted_take_le(rest[0], known_prefix_len(rest[0]));
            lemma_pages_trusted_nonneg(rest.drop_first());
            lemma_trusted_nonneg(rest[0]);
        }
        let page_done = absorb_page(avg, &pages[j]);
        if !page_done {
            proof {
                lemma_known_prefix_complete(rest[0]);
            }
            return false;
        }
        proof {
            lemma_known_prefix_complete(rest[0]);
            assert(known_prefix_len(rest[0]) == rest[0].len());
            assert(rest[0].take(known_prefix_len(rest[0])) =~= rest[0]);
        }
        j = j + 1;
    }
    proof {
        assert(all.skip(pages@.len() as int) =~= Seq::<Seq<PageEntry>>::empty());
    }
    true
}

/// Law: an item is finalized only when every rater seen on every fetched
/// page has a terminal classification, and its accumulator then holds the
/// initial state plus exactly the trusted raters' contributions -- the vote
/// count grows by precisely the number of raters classified trusted among
/// all raters ever seen for the item.
pub proof fn lemma_finalize_all_classified(n0: int, sum0: int, pages: Seq<Seq<PageEntry>>)
    requires
        scan_outcome(n0, sum0, pages).0,
    ensures
        forall|j: int| 0 <= j < pages.len() ==> all_classified(pages[j]),
        scan_outcome(n0, sum0, pages).1 == n0 + pages_trusted_count(pages),
        scan_outcome(n0, sum0, pages).2 == sum0 + pages_trusted_sum(pages),
    decreases pages.len(),
{
    if pages.len() > 0 {
        let p = pages[0];
        let k = known_prefix_len(p);
        lemma_known_prefix_props(p);
        assert(k == p.len());
        lemma_known_prefix_complete(p);
        assert(p.take(k) =~= p);
        lemma_finalize_all_classified(n0 + trusted_count(p), sum0 + trusted_sum(p),
            pages.drop_first());
        assert(forall|j: int|
            1 <= j < pages.len() ==> pages[j] == pages.drop_first()[j - 1]);
    }
}

/// Law: the item scan is resumable. If the first `k` pages were fully
/// absorbed (each page wholly classified, the cursor and accumulator
/// persisted after each), then evaluating only the remaining pages from the
/// persisted snapshot ends in the same outcome -- the same final rating and
/// vote count -- as an uninterrupted evaluation of all pages.
pub proof fn lemma_scan_resumable(n0: int, sum0: int, pages: Seq<Seq<PageEntry>>, k: int)
    requires
        0 <= k <= pages.len(),
        forall|j: int| 0 <= j < k ==> all_classified(pages[j]),
    ensures
        scan_outcome(n0, sum0, pages) == scan_outcome(
            scan_outcome(n0, sum0, pages.take(k)).1,
            scan_outcome(n0, sum0, pages.take(k)).2, pages.skip(k)),
    decreases k,
{
    if k == 0 {
        assert(pages.take(0) =~= Seq::<Seq<PageEntry>>::empty());
        assert(pages.skip(0) =~= pages);
    } else {
        let p = pages[0];
        lemma_known_prefix_complete(p);
        assert(known_prefix_len(p) == p.len());
        assert(p.take(p.len() as int) =~= p);
        let n1 = n0 + trusted_count(p);
        let s1 = sum0 + trusted_sum(p);
        let rest = pages.drop_first();
        assert(forall|j: int| 0 <= j < k - 1 ==> rest[j] == pages[j + 1]);
        lemma_scan_resumable(n1, s1, rest, k - 1);
        assert(pages.take(k).drop_first() =~= rest.take(k - 1));
        assert(pages.take(k)[0] == p);
        assert(pages.skip(k) =~= rest.skip(k - 1));
    }
}

/// What one fetched rater page (or its absence) means to the item worker.
pub enum ItemPageEvent {
    FetchFailed,
    Page(Vec<PageEntry>),
    NoMorePages,
}

/// What the item worker's loop does after evaluating the event.
#[derive(Clone, Copy, Debug, PartialEq, Eq, Structural)]
pub enum ItemPageAction {
    AbandonIteration,
    DeferItem,
    NextPage,
    FinalizeItem,
}

/// One step of the item worker's page loop: a failed fetch hardens the token
/// and abandons the iteration (the persisted cursor keeps the progress); a
/// fetched page eases the token and is absorbed up to the first rater not
/// yet classified, deferring the item if one was hit; an empty feed means
/// every page was seen and the item may be finalized.
pub fn item_page_step(ev: &ItemPageEvent, tkn: &mut RegulationToken, avg: &mut Avg) -> (a:
    ItemPageAction)
    requires
        old(tkn).i < u32::MAX,
        ev matches ItemPageEvent::Page(p) ==> old(avg).n + trusted_count(p@) <= u32::MAX
            && old(avg).sum + trusted_sum(p@) <= u64::MAX,
    ensures
        final(tkn).limit == old(tkn).limit,
        final(tkn).delay_step == old(tkn).delay_step,
        final(tkn).prevail_for == old(tkn).prevail_for,
        ev is FetchFailed ==> a == ItemPageAction::AbandonIteration && final(tkn).i == old(
            tkn).i + 1 && *final(avg) == *old(avg),
        ev matches ItemPageEvent::Page(p) ==> final(tkn).i == eased(old(tkn).i as int, old(
            tkn).limit as int) && final(avg).n == old(avg).n + trusted_count(p@.take(
            known_prefix_len(p@))) && final(avg).sum == old(avg).sum + trusted_sum(p@.take(
            known_prefix_len(p@))) && a == (if all_classified(p@) {
            ItemPageAction::NextPage
        } else {
            ItemPageAction::DeferItem
        }),
        ev is NoMorePages ==> a == ItemPageAction::FinalizeItem && final(tkn).i == old(tkn).i
            && *final(avg) == *old(avg),
{
    match ev {
        ItemPageEvent::FetchFailed => {
            tkn.harden();
            ItemPageAction::AbandonIteration
        },
        ItemPageEvent::Page(p) => {
            tkn.ease();
            let all_known = absorb_page(avg, p);
            if all_known {
                ItemPageAction::NextPage
            } else {
                ItemPageAction::DeferItem
            }
        },
        ItemPageEvent::NoMorePages => ItemPageAction::FinalizeItem,
    }
}

/// What the rater worker observed in one unit of work.
pub enum RaterEvent {
    NoneUnstable,
    FetchFailed,
    Fetched(u64),
}

/// What the rater worker's loop does after evaluating the event.
#[derive(Clone, Copy, Debug, PartialEq, Eq, Structural)]
pub enum RaterAction {
    Wait,
    Notify,
    Finalize(bool),
}

/// One step of the rater worker: with no unstable rater left it hardens the
/// token (polling backs off instead of busy-looping); a failed fetch hardens
/// the token and reports a recoverable notification; a fetched aggregate
/// score eases the token and settles the rater with its trust classification.
pub fn rater_step(ev: &RaterEvent, tkn: &mut RegulationToken, lower_bound: u64, upper_bound: u64)
    -> (a: RaterAction)
    requires
        old(tkn).i < u32::MAX,
    ensures
        final(tkn).limit == old(tkn).limit,
        final(tkn).delay_step == old(tkn).delay_step,
        final(tkn).prevail_for == old(tkn).prevail_for,
        ev is NoneUnstable ==> a == RaterAction::Wait && final(tkn).i == old(tkn).i + 1,
        ev is FetchFailed ==> a == RaterAction::Notify && final(tkn).i == old(tkn).i + 1,
        ev matches RaterEvent::Fetched(score) ==> a == RaterAction::Finalize(
            lower_bound < *score < upper_bound) && final(tkn).i == eased(old(tkn).i as int, old(
            tkn).limit as int),
{
    match ev {
        RaterEvent::NoneUnstable => {
            tkn.harden();
            RaterAction::Wait
        },
        RaterEvent::FetchFailed => {
            tkn.harden();
            RaterAction::Notify
        },
        RaterEvent::Fetched(score) => {
            tkn.ease();
            RaterAction::Finalize(trust(*score, lower_bound, upper_bound))
        },
    }
}

/// Close out a fully scanned item: record the integer part of the mean of
/// the absorbed trusted ratings, and how many there were. The caller
/// persists the row and raises its stable flag.
pub fn finalize_game(game: &mut Game, avg: &Avg)
    ensures
        final(game).rating == mean_of(avg.n as int, avg.sum as int),
        final(game).votes == avg.n,
        final(game).id == old(game).id,
        final(game).name == old(game).name,
        final(game).bgg_num_votes == old(game).bgg_num_votes,
        final(game).bgg_geek_rating == old(game).bgg_geek_rating,
        final(game).bgg_avg_rating == old(game).bgg_avg_rating,
{
    game.rating = avg.result();
    game.votes = avg.n();
}

} // verus!
