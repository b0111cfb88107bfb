//! The page address of a stored episode.

use vstd::prelude::*;

verus! {

/// The address of an episode's page; `id` is the row id once stored, 0
/// before.
pub struct EpisodeUrl {
    pub id: i64,
    pub episode_id: i64,
    pub url: String,
}

impl EpisodeUrl {
    /// A not yet stored address of the episode `episode_id`.
    pub fn new(url: String, episode_id: i64) -> (r: Self)
        ensures
            r.id == 0,
            r.url@ == url@,
            r.episode_id == episode_id,
    {
        Self { id: 0, episode_id, url }
    }
}

} // verus!
