//! The animes that a browse page links to, and an anime's metadata read
//! from its page.

use vstd::prelude::*;

use crate::anime::{Anime, AnimeView, EpisodeView};
use crate::error::{Field, ScrapeError};
use crate::html::{
    all_first_texts, all_present, css_select_attribute, css_select_texts,
    first_text, first_text_spec, first_texts, leading_attributes, leading_present,
    opt_texts_view, select_attribute, select_texts, strings_view,
};
use crate::text::{first_two_pieces, split_first_two};

verus! {

/// The section under which anime pages' checksums are stored.
pub const ANIME_SECTION: &'static str = "anime";

/// The selector of the anime links of a browse page.
pub const ANIME_LINK_SELECTOR: &'static str = "a.link-anime";

/// What `anime_links` gives for the selection of the anime links' `href`s
/// of a browse page: the `href`s up to the first link without one, and
/// then the error of that link.
pub open spec fn anime_links_spec(selection: Option<Seq<Option<Seq<char>>>>) -> Option<
    (Seq<Seq<char>>, Option<ScrapeError>),
> {
    match selection {
        None => None,
        Some(sel) => Some(
            (
                leading_present(sel),
                if all_present(sel) is None {
                    Some(ScrapeError::MissingAttribute(Field::AnimeLink))
                } else {
                    None
                },
            ),
        ),
    }
}

/// The addresses of the animes that a browse page links to, in order, up
/// to the first link without an `href`, and the error of that link if
/// there is one: the animes before it are scraped, then the error is
/// reported. `None` where the selector is invalid.
pub fn anime_links(browse_body: &str) -> (r: Option<(Vec<String>, Option<ScrapeError>)>)
    ensures
        match r {
            None => anime_links_spec(
                css_select_attribute(browse_body@, ANIME_LINK_SELECTOR@, "href"@),
            ) is None,
            Some((links, error)) => anime_links_spec(
                css_select_attribute(browse_body@, ANIME_LINK_SELECTOR@, "href"@),
            ) == Some((strings_view(links@), error)),
        },
{
    match select_attribute(browse_body, ANIME_LINK_SELECTOR, "href") {
        None => None,
        Some(hrefs) => {
            let (links, missing) = leading_attributes(&hrefs);
            let error = if missing {
                Some(ScrapeError::MissingAttribute(Field::AnimeLink))
            } else {
                None
            };
            Some((links, error))
        },
    }
}

/// The view of an extraction's result.
pub open spec fn anime_result_view(r: Result<Anime, ScrapeError>) -> Result<AnimeView, ScrapeError> {
    match r {
        Ok(a) => Ok(a@),
        Err(e) => Err(e),
    }
}

/// What `extract_anime` gives for the five selections of an anime page
/// (title, synopsis, status, release date and kind, genres; `None` where a
/// selector is invalid): the first text of each of the first four, the
/// fourth split at `" | "` into release date and kind, and the first text
/// of each genre. The anime has no episodes yet.
pub open spec fn extract_anime_spec(
    title: Option<Seq<Seq<Seq<char>>>>,
    synopsis: Option<Seq<Seq<Seq<char>>>>,
    status: Option<Seq<Seq<Seq<char>>>>,
    release_and_kind: Option<Seq<Seq<Seq<char>>>>,
    genres: Option<Seq<Seq<Seq<char>>>>,
) -> Result<AnimeView, ScrapeError> {
    if title is None || synopsis is None || status is None || release_and_kind is None
        || genres is None {
        Err(ScrapeError::InvalidSelector)
    } else {
        match first_text_spec(title.unwrap(), Field::Title) {
            Err(e) => Err(e),
            Ok(t) => match first_text_spec(synopsis.unwrap(), Field::Synopsis) {
                Err(e) => Err(e),
                Ok(sy) => match first_text_spec(status.unwrap(), Field::Status) {
                    Err(e) => Err(e),
                    Ok(st) => match first_text_spec(
                        release_and_kind.unwrap(),
                        Field::ReleaseDateAndKind,
                    ) {
                        Err(e) => Err(e),
                        Ok(rk) => {
                            let pieces = first_two_pieces(rk, " | "@);
                            match pieces.1 {
                                None => Err(ScrapeError::NoTextNode(Field::Kind)),
                                Some(kind) => match all_first_texts(genres.unwrap()) {
                                    None => Err(ScrapeError::NoTextNode(Field::Genres)),
                                    Some(g) => Ok(
                                        AnimeView {
                                            title: t,
                                            synopsis: sy,
                                            status: st,
                                            release_date: pieces.0,
                                            kind: kind,
                                            genres: g,
                                            episodes: Seq::<EpisodeView>::empty(),
                                        },
                                    ),
                                },
                            }
                        },
                    },
                },
            },
        }
    }
}

/// An anime extracted from the five selections of its page holds the
/// first text of the first title, synopsis, status and release-date-and-kind
/// elements, the release date and kind split from the latter, no episodes,
/// and as genres the first text of every selected genre element, in order.
pub proof fn lemma_extracted_anime_fields(
    title: Option<Seq<Seq<Seq<char>>>>,
    synopsis: Option<Seq<Seq<Seq<char>>>>,
    status: Option<Seq<Seq<Seq<char>>>>,
    release_and_kind: Option<Seq<Seq<Seq<char>>>>,
    genres: Option<Seq<Seq<Seq<char>>>>,
)
    requires
        extract_anime_spec(title, synopsis, status, release_and_kind, genres) is Ok,
    ensures
        ({
            let a = extract_anime_spec(title, synopsis, status, release_and_kind, genres)->Ok_0;
            &&& title matches Some(t) && t.len() > 0 && t[0].len() > 0 && a.title == t[0][0]
            &&& synopsis matches Some(t) && t.len() > 0 && t[0].len() > 0 && a.synopsis == t[0][0]
            &&& status matches Some(t) && t.len() > 0 && t[0].len() > 0 && a.status == t[0][0]
            &&& release_and_kind matches Some(t) && t.len() > 0 && t[0].len() > 0 && {
                let pieces = first_two_pieces(t[0][0], " | "@);
                a.release_date == pieces.0 && pieces.1 == Some(a.kind)
            }
            &&& genres matches Some(g) && a.genres.len() == g.len() && forall|i: int|
                0 <= i < g.len() ==> (#[trigger] g[i]).len() > 0 && a.genres[i] == g[i][0]
            &&& a.episodes.len() == 0
        }),
{
}

/// Builds the anime from the five selections of its page (see
/// `extract_anime_spec`).
pub fn anime_from_selections(
    title: Option<Vec<Vec<String>>>,
    synopsis: Option<Vec<Vec<String>>>,
    status: Option<Vec<Vec<String>>>,
    release_and_kind: Option<Vec<Vec<String>>>,
    genres: Option<Vec<Vec<String>>>,
) -> (r: Result<Anime, ScrapeError>)
    ensures
        anime_result_view(r) == extract_anime_spec(
            opt_texts_view(title),
            opt_texts_view(synopsis),
            opt_texts_view(status),
            opt_texts_view(release_and_kind),
            opt_texts_view(genres),
        ),
{
    let (title, synopsis, status, release_and_kind, genres) = match (
        title,
        synopsis,
        status,
        release_and_kind,
        genres,
    ) {
        (Some(a), Some(b), Some(c), Some(d), Some(e)) => (a, b, c, d, e),
        _ => return Err(ScrapeError::InvalidSelector),
    };
    let title = first_text(&title, Field::Title)?;
    let synopsis = first_text(&synopsis, Field::Synopsis)?;
    let status = first_text(&status, Field::Status)?;
    let release_and_kind = first_text(&release_and_kind, Field::ReleaseDateAndKind)?;
    proof {
        reveal_strlit(" | ");
    }
    let (release_date, kind) = split_first_two(release_and_kind.as_str(), " | ");
    let kind = match kind {
        Some(k) => k.to_owned(),
        None => return Err(ScrapeError::NoTextNode(Field::Kind)),
    };
    let genres = match first_texts(&genres) {
        Some(g) => g,
        None => return Err(ScrapeError::NoTextNode(Field::Genres)),
    };
    let anime = Anime {
        title,
        synopsis,
        status,
        release_date: release_date.to_owned(),
        kind,
        genres,
        episodes: Vec::new(),
    };
    assert(anime@.episodes =~= Seq::<EpisodeView>::empty());
    Ok(anime)
}

/// Extracts an anime's metadata from the body of its page.
pub fn extract_anime(body: &str) -> (r: Result<Anime, ScrapeError>)
    ensures
        anime_result_view(r) == extract_anime_spec(
            css_select_texts(body@, "h1.Title"@),
            css_select_texts(body@, "div.Description"@),
            css_select_texts(body@, "div.Type"@),
            css_select_texts(body@, "div.after_title"@),
            css_select_texts(body@, "div.generos a"@),
        ),
{
    let title = select_texts(body, "h1.Title");
    let synopsis = select_texts(body, "div.Description");
    let status = select_texts(body, "div.Type");
    let release_and_kind = select_texts(body, "div.after_title");
    let genres = select_texts(body, "div.generos a");
    anime_from_selections(title, synopsis, status, release_and_kind, genres)
}

} // verus!
