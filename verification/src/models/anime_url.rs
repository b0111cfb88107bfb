//! The page address of a stored anime.

use vstd::prelude::*;

verus! {

/// The address of an anime's page; `id` is the row id once stored, 0
/// before.
pub struct AnimeUrl {
    pub id: i64,
    pub anime_id: i64,
    pub url: String,
}

impl AnimeUrl {
    /// A not yet stored address of the anime `anime_id`.
    pub fn new(url: String, anime_id: i64) -> (r: Self)
        ensures
            r.id == 0,
            r.url@ == url@,
            r.anime_id == anime_id,
    {
        Self { id: 0, url, anime_id }
    }
}

} // verus!
