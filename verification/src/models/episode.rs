//! An episode: its title and its video servers, extracted from its page.

use vstd::prelude::*;

use crate::error::{Field, ScrapeError};
use crate::html::{
    css_select_attribute, css_select_texts, first_text_spec, opt_attributes_view, opt_texts_view,
    select_attribute, select_texts, Html,
};
use crate::models::server::{extract_servers_spec, servers_view, Server, ServerView};

verus! {

/// An episode of an anime.
pub struct Episode {
    pub title: String,
    pub servers: Vec<Server>,
}

/// What an `Episode` holds, as characters.
pub struct EpisodeView {
    pub title: Seq<char>,
    pub servers: Seq<ServerView>,
}

impl View for Episode {
    type V = EpisodeView;

    open spec fn view(&self) -> EpisodeView {
        EpisodeView { title: self.title@, servers: servers_view(self.servers@) }
    }
}

/// The view of an extraction's outcome.
pub open spec fn episode_outcome_view(r: Option<Result<Episode, ScrapeError>>) -> Option<
    Result<EpisodeView, ScrapeError>,
> {
    match r {
        None => None,
        Some(Ok(e)) => Some(Ok(e@)),
        Some(Err(e)) => Some(Err(e)),
    }
}

/// What `Episode::extract` gives: the first text of the first title
/// element (`None` where there is none: the page is not of the shape the
/// extraction reads), then the servers of the page.
pub open spec fn extract_episode_spec(
    title: Option<Seq<Seq<Seq<char>>>>,
    server_titles: Option<Seq<Option<Seq<char>>>>,
    server_sources: Option<Seq<Option<Seq<char>>>>,
) -> Option<Result<EpisodeView, ScrapeError>> {
    match title {
        None => None,
        Some(t) => match first_text_spec(t, Field::EpisodeTitle) {
            Err(_) => None,
            Ok(title) => match extract_servers_spec(server_titles, server_sources) {
                None => None,
                Some(Err(e)) => Some(Err(e)),
                Some(Ok(servers)) => Some(Ok(EpisodeView { title, servers })),
            },
        },
    }
}

/// An episode extracted from its page holds the first text of the first
/// title element, and exactly the servers that the server extraction of
/// the same selections gives.
pub proof fn lemma_episode_holds_extracted_servers(
    title: Option<Seq<Seq<Seq<char>>>>,
    server_titles: Option<Seq<Option<Seq<char>>>>,
    server_sources: Option<Seq<Option<Seq<char>>>>,
)
    requires
        extract_episode_spec(title, server_titles, server_sources) matches Some(Ok(_)),
    ensures
        ({
            let e = extract_episode_spec(title, server_titles, server_sources).unwrap()->Ok_0;
            &&& title matches Some(t) && t.len() > 0 && t[0].len() > 0 && e.title == t[0][0]
            &&& extract_servers_spec(server_titles, server_sources) == Some(
                Ok::<Seq<ServerView>, ScrapeError>(e.servers),
            )
        }),
{
}

impl Episode {
    /// Builds the episode from the three selections of its page (see
    /// `extract_episode_spec`): the title texts, and the option titles and
    /// player addresses of its servers.
    pub fn from_selections(
        title: Option<Vec<Vec<String>>>,
        server_titles: Option<Vec<Option<String>>>,
        server_sources: Option<Vec<Option<String>>>,
    ) -> (r: Option<Result<Episode, ScrapeError>>)
        ensures
            episode_outcome_view(r) == extract_episode_spec(
                opt_texts_view(title),
                opt_attributes_view(server_titles),
                opt_attributes_view(server_sources),
            ),
    {
        let selection = match title {
            Some(s) => s,
            None => return None,
        };
        if selection.len() == 0 || selection[0].len() == 0 {
            return None;
        }
        let title = selection[0][0].clone();
        let servers = match (server_titles, server_sources) {
            (Some(t), Some(s)) => Server::from_selections(&t, &s),
            _ => None,
        };
        match servers {
            None => None,
            Some(Err(e)) => Some(Err(e)),
            Some(Ok(servers)) => Some(Ok(Episode { title, servers })),
        }
    }

    /// Extracts an episode from its page: the first text of
    /// `div.Title-epi`, then the servers (see `Server::extract_many`).
    pub fn extract(doc: &Html) -> (r: Option<Result<Episode, ScrapeError>>)
        ensures
            episode_outcome_view(r) == extract_episode_spec(
                css_select_texts(doc.source@, "div.Title-epi"@),
                css_select_attribute(doc.source@, "ul.TPlayerNv li"@, "title"@),
                css_select_attribute(doc.source@, "div.TPlayer iframe"@, "src"@),
            ),
    {
        let source = doc.source.as_str();
        let title = select_texts(source, "div.Title-epi");
        let server_titles = select_attribute(source, "ul.TPlayerNv li", "title");
        let server_sources = select_attribute(source, "div.TPlayer iframe", "src");
        Episode::from_selections(title, server_titles, server_sources)
    }
}

} // verus!
