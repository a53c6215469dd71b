//! Catalog entities: items, their resumable scan state, and the page cursor
//! used to walk an item's rater pages.
//!
//! Rating values are integers in hundredths of a rating point throughout;
//! the remote source's fractional scores are converted at the edge.

use vstd::prelude::*;

verus! {

/// A catalog item whose aggregate rating is being computed. The popularity
/// snapshot fields are captured at discovery time and never mutated. The
/// final `rating` holds the integer part of the mean of the trusted ratings,
/// in hundredths of a rating point; `votes` counts those ratings.
#[derive(Clone, Debug)]
pub struct Game {
    pub id: u32,
    pub name: String,
    pub rating: u64,
    pub votes: u32,
    pub bgg_num_votes: u32,
    pub bgg_geek_rating: u64,
    pub bgg_avg_rating: u64,
}

impl Game {
    /// A freshly discovered item: no rating computed yet.
    pub fn new(id: u32, name: String) -> (g: Game)
        ensures
            g.id == id,
            g.name == name,
            g.rating == 0,
            g.votes == 0,
            g.bgg_num_votes == 0,
            g.bgg_geek_rating == 0,
            g.bgg_avg_rating == 0,
    {
        Game { id, name, rating: 0, votes: 0, bgg_num_votes: 0, bgg_geek_rating: 0, bgg_avg_rating: 0 }
    }
}

/// The persisted, resumable scan state of one unstable item: the next rater
/// page to fetch, and the accumulator (count and exact sum, in hundredths)
/// over the pages already evaluated.
pub struct Temp {
    pub page: u32,
    pub n: u32,
    pub r: u64,
}

impl Temp {
    pub fn new(page: u32, n: u32, r: u64) -> (t: Temp)
        ensures
            t.page == page,
            t.n == n,
            t.r == r,
    {
        Temp { page, n, r }
    }
}

/// Cursor over the rater pages of one item. The item worker resumes it from
/// the persisted page number; the fetch itself happens outside the library.
pub struct UserIterator {
    pub game_id: u32,
    pub page: u32,
}

impl UserIterator {
    /// Start (or resume) walking an item's rater pages; `page` is the next
    /// page to fetch.
    pub fn new(game_id: u32, page: u32) -> (it: UserIterator)
        ensures
            it.game_id == game_id,
            it.page == page,
    {
        UserIterator { game_id, page }
    }

    /// Hand out the page number to fetch next and advance the cursor.
    pub fn next_page(&mut self) -> (p: u32)
        requires
            old(self).page < u32::MAX,
        ensures
            p == old(self).page,
            final(self).page == old(self).page + 1,
            final(self).game_id == old(self).game_id,
    {
        let p = self.page;
        self.page = self.page + 1;
        p
    }
}

} // verus!
