//! An anime as the browse-and-extract pipeline describes it: metadata,
//! episodes and their video servers.

use vstd::prelude::*;

verus! {

/// An anime with its episodes.
pub struct Anime {
    pub title: String,
    pub synopsis: String,
    pub status: String,
    pub release_date: String,
    pub kind: String,
    pub genres: Vec<String>,
    pub episodes: Vec<Episode>,
}

/// An episode with its video servers.
pub struct Episode {
    pub name: String,
    pub servers: Vec<Server>,
}

/// A server that hosts an episode's video.
pub struct Server {
    pub name: String,
    pub url: String,
}

/// What a `Server` holds, as characters.
pub struct ServerView {
    pub name: Seq<char>,
    pub url: Seq<char>,
}

/// What an `Episode` holds, as characters.
pub struct EpisodeView {
    pub name: Seq<char>,
    pub servers: Seq<ServerView>,
}

/// What an `Anime` holds, as characters.
pub struct AnimeView {
    pub title: Seq<char>,
    pub synopsis: Seq<char>,
    pub status: Seq<char>,
    pub release_date: Seq<char>,
    pub kind: Seq<char>,
    pub genres: Seq<Seq<char>>,
    pub episodes: Seq<EpisodeView>,
}

impl View for Server {
    type V = ServerView;

    open spec fn view(&self) -> ServerView {
        ServerView { name: self.name@, url: self.url@ }
    }
}

impl View for Episode {
    type V = EpisodeView;

    open spec fn view(&self) -> EpisodeView {
        EpisodeView { name: self.name@, servers: self.servers@.map_values(|s: Server| s@) }
    }
}

impl View for Anime {
    type V = AnimeView;

    open spec fn view(&self) -> AnimeView {
        AnimeView {
            title: self.title@,
            synopsis: self.synopsis@,
            status: self.status@,
            release_date: self.release_date@,
            kind: self.kind@,
            genres: self.genres@.map_values(|g: String| g@),
            episodes: self.episodes@.map_values(|e: Episode| e@),
        }
    }
}

} // verus!
