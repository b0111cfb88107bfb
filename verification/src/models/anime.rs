//! An anime's metadata, extracted from its page.

use vstd::prelude::*;

use crate::error::{Field, ScrapeError};
use crate::html::{
    all_first_texts, css_select_texts, first_text, first_text_spec, first_texts, opt_texts_view,
    select_texts, strings_view, Html,
};
use crate::text::{first_two_pieces, split_first_two, trim, trim_spec};

verus! {

/// An anime's metadata; `id` is the row id once stored, 0 before.
pub struct Anime {
    pub id: i64,
    pub title: String,
    pub synopsis: String,
    pub status: String,
    pub release_date: String,
    pub kind: String,
    pub genres: Vec<String>,
}

/// What an `Anime` holds, as characters.
pub struct AnimeView {
    pub id: i64,
    pub title: Seq<char>,
    pub synopsis: Seq<char>,
    pub status: Seq<char>,
    pub release_date: Seq<char>,
    pub kind: Seq<char>,
    pub genres: Seq<Seq<char>>,
}

impl View for Anime {
    type V = AnimeView;

    open spec fn view(&self) -> AnimeView {
        AnimeView {
            id: self.id,
            title: self.title@,
            synopsis: self.synopsis@,
            status: self.status@,
            release_date: self.release_date@,
            kind: self.kind@,
            genres: strings_view(self.genres@),
        }
    }
}

/// The view of an extraction's outcome: `None` where the page lacks what
/// the extraction takes for granted.
pub open spec fn anime_outcome_view(r: Option<Result<Anime, ScrapeError>>) -> Option<
    Result<AnimeView, ScrapeError>,
> {
    match r {
        None => None,
        Some(Ok(a)) => Some(Ok(a@)),
        Some(Err(e)) => Some(Err(e)),
    }
}

/// The separator between release date and kind.
pub open spec fn release_kind_separator() -> Seq<char> {
    " | "@
}

/// What `Anime::extract` gives for the five selections of an anime page:
/// title, synopsis, status, release date and kind, genres. A selection is
/// `None` where its selector is invalid. The result is `None` where the
/// release-date-and-kind element is missing or has fewer than four text
/// nodes (there the page is not of the shape the extraction reads).
pub open spec fn extract_anime_spec(
    title: Option<Seq<Seq<Seq<char>>>>,
    synopsis: Option<Seq<Seq<Seq<char>>>>,
    status: Option<Seq<Seq<Seq<char>>>>,
    release_and_kind: Option<Seq<Seq<Seq<char>>>>,
    genres: Option<Seq<Seq<Seq<char>>>>,
) -> Option<Result<AnimeView, ScrapeError>> {
    if title is None || synopsis is None || status is None || release_and_kind is None
        || genres is None {
        Some(Err(ScrapeError::InvalidSelector))
    } else {
        match first_text_spec(title.unwrap(), Field::Title) {
            Err(e) => Some(Err(e)),
            Ok(t) => match first_text_spec(synopsis.unwrap(), Field::Synopsis) {
                Err(e) => Some(Err(e)),
                Ok(sy) => match first_text_spec(status.unwrap(), Field::Status) {
                    Err(e) => Some(Err(e)),
                    Ok(st) => {
                        let rk = release_and_kind.unwrap();
                        if rk.len() == 0 || rk[0].len() < 4 {
                            None
                        } else {
                            let pieces = first_two_pieces(
                                trim_spec(rk[0][3]),
                                release_kind_separator(),
                            );
                            match pieces.1 {
                                None => Some(Err(ScrapeError::NoTextNode(Field::Kind))),
                                Some(kind) => match all_first_texts(genres.unwrap()) {
                                    None => Some(Err(ScrapeError::NoTextNode(Field::Genres))),
                                    Some(g) => Some(
                                        Ok(
                                            AnimeView {
                                                id: 0,
                                                title: t,
                                                synopsis: sy,
                                                status: st,
                                                release_date: pieces.0,
                                                kind: kind,
                                                genres: g,
                                            },
                                        ),
                                    ),
                                },
                            }
                        }
                    },
                },
            },
        }
    }
}

/// An anime extracted from the five selections of its page (where the
/// page has the shape the extraction reads and it succeeds) has id 0, holds
/// the first text of the first title, synopsis and status elements, the
/// release date and kind split from the trimmed fourth text of the
/// release-date-and-kind element, and as genres the first text of every
/// selected genre element, in order.
pub proof fn lemma_extracted_anime_fields(
    title: Option<Seq<Seq<Seq<char>>>>,
    synopsis: Option<Seq<Seq<Seq<char>>>>,
    status: Option<Seq<Seq<Seq<char>>>>,
    release_and_kind: Option<Seq<Seq<Seq<char>>>>,
    genres: Option<Seq<Seq<Seq<char>>>>,
)
    requires
        extract_anime_spec(title, synopsis, status, release_and_kind, genres) matches Some(Ok(_)),
    ensures
        ({
            let a = extract_anime_spec(title, synopsis, status, release_and_kind, genres).unwrap()->Ok_0;
            &&& a.id == 0
            &&& title matches Some(t) && t.len() > 0 && t[0].len() > 0 && a.title == t[0][0]
            &&& synopsis matches Some(t) && t.len() > 0 && t[0].len() > 0 && a.synopsis == t[0][0]
            &&& status matches Some(t) && t.len() > 0 && t[0].len() > 0 && a.status == t[0][0]
            &&& release_and_kind matches Some(t) && t.len() > 0 && t[0].len() >= 4 && {
                let pieces = first_two_pieces(trim_spec(t[0][3]), " | "@);
                a.release_date == pieces.0 && pieces.1 == Some(a.kind)
            }
            &&& genres matches Some(g) && a.genres.len() == g.len() && forall|i: int|
                0 <= i < g.len() ==> (#[trigger] g[i]).len() > 0 && a.genres[i] == g[i][0]
        }),
{
}

impl Anime {
    /// Builds the anime from the five selections of its page (see
    /// `extract_anime_spec`): the first text of title, synopsis and status,
    /// the fourth text of the release-date-and-kind element, trimmed and
    /// split at `" | "`, and the first text of each genre.
    pub fn from_selections(
        title: Option<Vec<Vec<String>>>,
        synopsis: Option<Vec<Vec<String>>>,
        status: Option<Vec<Vec<String>>>,
        release_and_kind: Option<Vec<Vec<String>>>,
        genres: Option<Vec<Vec<String>>>,
    ) -> (r: Option<Result<Anime, ScrapeError>>)
        ensures
            anime_outcome_view(r) == extract_anime_spec(
                opt_texts_view(title),
                opt_texts_view(synopsis),
                opt_texts_view(status),
                opt_texts_view(release_and_kind),
                opt_texts_view(genres),
            ),
    {
        let (title, synopsis, status, release_and_kind, genres) = match (
            title,
            synopsis,
            status,
            release_and_kind,
            genres,
        ) {
            (Some(a), Some(b), Some(c), Some(d), Some(e)) => (a, b, c, d, e),
            _ => return Some(Err(ScrapeError::InvalidSelector)),
        };
        let title = match first_text(&title, Field::Title) {
            Ok(t) => t,
            Err(e) => return Some(Err(e)),
        };
        let synopsis = match first_text(&synopsis, Field::Synopsis) {
            Ok(t) => t,
            Err(e) => return Some(Err(e)),
        };
        let status = match first_text(&status, Field::Status) {
            Ok(t) => t,
            Err(e) => return Some(Err(e)),
        };
        if release_and_kind.len() == 0 || release_and_kind[0].len() < 4 {
            return None;
        }
        let trimmed = trim(release_and_kind[0][3].as_str());
        proof {
            reveal_strlit(" | ");
        }
        let (release_date, kind) = split_first_two(trimmed, " | ");
        let kind = match kind {
            Some(k) => k.to_owned(),
            None => return Some(Err(ScrapeError::NoTextNode(Field::Kind))),
        };
        let genres = match first_texts(&genres) {
            Some(g) => g,
            None => return Some(Err(ScrapeError::NoTextNode(Field::Genres))),
        };
        Some(
            Ok(
                Anime {
                    id: 0,
                    title,
                    synopsis,
                    status,
                    release_date: release_date.to_owned(),
                    kind,
                    genres,
                },
            ),
        )
    }

    /// Extracts an anime's metadata from its page; `None` where the page
    /// lacks the release-date-and-kind element or its fourth text node.
    pub fn extract(doc: &Html) -> (r: Option<Result<Anime, ScrapeError>>)
        ensures
            anime_outcome_view(r) == extract_anime_spec(
                css_select_texts(doc.source@, "h1.Title"@),
                css_select_texts(doc.source@, "div.Description"@),
                css_select_texts(doc.source@, "div.Type"@),
                css_select_texts(doc.source@, "div.after-title"@),
                css_select_texts(doc.source@, "div.generos a"@),
            ),
    {
        let source = doc.source.as_str();
        let title = select_texts(source, "h1.Title");
        let synopsis = select_texts(source, "div.Description");
        let status = select_texts(source, "div.Type");
        let release_and_kind = select_texts(source, "div.after-title");
        let genres = select_texts(source, "div.generos a");
        Anime::from_selections(title, synopsis, status, release_and_kind, genres)
    }
}

} // verus!
