use mc_scraper::error::{Field, ScrapeError};
use mc_scraper::html::Html;
use mc_scraper::models::anime::Anime;
use mc_scraper::models::anime_url::AnimeUrl;
use mc_scraper::models::episode::Episode;
use mc_scraper::models::episode_url::EpisodeUrl;
use mc_scraper::models::page_checksum::{PageChecksum, PageChecksumRow};
use mc_scraper::models::server::{video_url_from_pairs, video_url_of_player, Server};

const ANIME_PAGE: &str = r#"<html><head><title>x</title></head><body><h1 class="Title">Naruto</h1><div class="Description"><p>A young ninja.</p></div><div class="Type">Finalizado</div><div class="after-title"><span>Anime</span><span>Sub</span><span>HD</span>
      2002 | Anime
  </div><div class="generos"><a href="/g/accion">Accion</a><a href="/g/comedia">Comedia</a></div></body></html>"#;

fn anime_page_with(after_title: &str, genres: &str) -> String {
    format!(
        r#"<html><body><h1 class="Title">Naruto</h1><div class="Description">A young ninja.</div><div class="Type">Finalizado</div>{}<div class="generos">{}</div></body></html>"#,
        after_title, genres
    )
}

#[test]
fn anime_extract_reads_the_page() {
    let anime = Anime::extract(&Html::parse_document(ANIME_PAGE)).unwrap().unwrap();
    assert_eq!(anime.id, 0);
    assert_eq!(anime.title, "Naruto");
    assert_eq!(anime.synopsis, "A young ninja.");
    assert_eq!(anime.status, "Finalizado");
    assert_eq!(anime.release_date, "2002");
    assert_eq!(anime.kind, "Anime");
    assert_eq!(anime.genres, vec!["Accion".to_string(), "Comedia".to_string()]);
}

#[test]
fn anime_extract_errors() {
    let no_title = Html::parse_document("<html><body><p>x</p></body></html>");
    assert_eq!(
        Anime::extract(&no_title).map(|r| r.map(|a| a.title)),
        Some(Err(ScrapeError::NoElementMatches(Field::Title)))
    );
    let empty_title = Html::parse_document(r#"<h1 class="Title"></h1>"#);
    assert_eq!(
        Anime::extract(&empty_title).map(|r| r.map(|a| a.title)),
        Some(Err(ScrapeError::NoTextNode(Field::Title)))
    );
    let no_kind = anime_page_with(
        r#"<div class="after-title"><i>a</i><i>b</i><i>c</i>2002</div>"#,
        "<a>Accion</a>",
    );
    assert_eq!(
        Anime::extract(&Html::parse_document(&no_kind)).map(|r| r.map(|a| a.title)),
        Some(Err(ScrapeError::NoTextNode(Field::Kind)))
    );
    let empty_genre = anime_page_with(
        r#"<div class="after-title"><i>a</i><i>b</i><i>c</i>2002 | TV</div>"#,
        "<a>Accion</a><a></a>",
    );
    assert_eq!(
        Anime::extract(&Html::parse_document(&empty_genre)).map(|r| r.map(|a| a.title)),
        Some(Err(ScrapeError::NoTextNode(Field::Genres)))
    );
}

#[test]
fn anime_extract_without_release_element_is_none() {
    let missing = anime_page_with("", "<a>Accion</a>");
    assert!(Anime::extract(&Html::parse_document(&missing)).is_none());
    let short = anime_page_with(r#"<div class="after-title"><i>a</i>2002 | TV</div>"#, "");
    assert!(Anime::extract(&Html::parse_document(&short)).is_none());
}

#[test]
fn anime_from_selections_invalid_selector() {
    let some = Some(vec![vec!["t".to_string()]]);
    let r = Anime::from_selections(some.clone(), None, some.clone(), some.clone(), some);
    assert_eq!(r.map(|r| r.map(|a| a.title)), Some(Err(ScrapeError::InvalidSelector)));
}

const EPISODE_PAGE: &str = r#"<html><body><div class="Title-epi">Naruto 1</div><ul class="TPlayerNv"><li title="Fembed">1</li><li title="Okru">2</li><li title="Extra">3</li></ul><div class="TPlayer"><iframe src="https://monoschinos2.com/reproductor?url=https%253A%252F%252Fvideo.example%252Fv%252F1&amp;foo=bar"></iframe><iframe src="https://other.example/embed?id=3"></iframe></div></body></html>"#;

#[test]
fn server_extract_many_pairs_titles_with_players() {
    let servers = Server::extract_many(&Html::parse_document(EPISODE_PAGE)).unwrap().unwrap();
    assert_eq!(servers.len(), 1);
    assert_eq!(servers[0].episode_id, 0);
    assert_eq!(servers[0].name, "Fembed");
    assert_eq!(servers[0].url, "https://video.example/v/1");
}

#[test]
fn server_extract_many_errors() {
    let bad_url = r#"<ul class="TPlayerNv"><li title="A"></li></ul><div class="TPlayer"><iframe src="not a url"></iframe></div>"#;
    assert_eq!(
        Server::extract_many(&Html::parse_document(bad_url)).map(|r| r.map(|v| v.len())),
        Some(Err(ScrapeError::InvalidUrl))
    );
    let bad_utf8 = r#"<ul class="TPlayerNv"><li title="A"></li></ul><div class="TPlayer"><iframe src="https://p.example/?url=%25FF"></iframe></div>"#;
    assert_eq!(
        Server::extract_many(&Html::parse_document(bad_utf8)).map(|r| r.map(|v| v.len())),
        Some(Err(ScrapeError::InvalidUtf8))
    );
    let no_title = r#"<ul class="TPlayerNv"><li></li></ul><div class="TPlayer"><iframe src="https://p.example/?url=x"></iframe></div>"#;
    assert!(Server::extract_many(&Html::parse_document(no_title)).is_none());
    let none = "<p>no players</p>";
    assert_eq!(
        Server::extract_many(&Html::parse_document(none)).map(|r| r.map(|v| v.len())),
        Some(Ok(0))
    );
}

#[test]
fn video_url_of_player_decodes_the_url_parameter() {
    assert_eq!(
        video_url_of_player("https://p.example/r?a=1&url=abc%2520def&url=second"),
        Ok(Some("abc def".to_string()))
    );
    assert_eq!(video_url_of_player("https://p.example/r?a=1"), Ok(None));
    assert_eq!(video_url_of_player("/relative"), Err(ScrapeError::InvalidUrl));
}

#[test]
fn server_from_selections_stops_at_first_error() {
    let titles = vec![Some("A".to_string()), None];
    let sources = vec![Some("bad".to_string()), Some("https://p.example/?url=x".to_string())];
    assert_eq!(
        Server::from_selections(&titles, &sources).map(|r| r.map(|v| v.len())),
        Some(Err(ScrapeError::InvalidUrl))
    );
    let titles = vec![Some("A".to_string()), Some("B".to_string())];
    let sources = vec![Some("https://p.example/?url=one".to_string())];
    let servers = Server::from_selections(&titles, &sources).unwrap().unwrap();
    assert_eq!(servers.len(), 1);
    assert_eq!(servers[0].url, "one");
}

#[test]
fn episode_extract_reads_title_and_servers() {
    let episode = Episode::extract(&Html::parse_document(EPISODE_PAGE)).unwrap().unwrap();
    assert_eq!(episode.title, "Naruto 1");
    assert_eq!(episode.servers.len(), 1);
    assert_eq!(episode.servers[0].name, "Fembed");
    assert!(Episode::extract(&Html::parse_document("<p>x</p>")).is_none());
}

#[test]
fn urls_new_are_unstored() {
    let a = AnimeUrl::new("https://x/anime".to_string(), 5);
    assert_eq!((a.id, a.anime_id, a.url.as_str()), (0, 5, "https://x/anime"));
    let e = EpisodeUrl::new("https://x/ep".to_string(), 9);
    assert_eq!((e.id, e.episode_id, e.url.as_str()), (0, 9, "https://x/ep"));
}

#[test]
fn page_checksum_from_page_new() {
    let p = PageChecksum::from_page("u".to_string(), "Wikipedia", None);
    assert!(p.is_new());
    assert!(!p.changed());
    assert_eq!(p.row().id, 0);
    assert_eq!(p.row().url, "u");
    assert_eq!(p.row().checksum, 0x11E6_0398);
}

#[test]
fn page_checksum_from_page_existing() {
    let same = PageChecksumRow { id: 4, url: "u".to_string(), checksum: 0x11E6_0398 };
    let p = PageChecksum::from_page("u".to_string(), "Wikipedia", Some(same));
    assert!(!p.is_new());
    assert!(!p.changed());
    assert_eq!(p.row().id, 4);
    assert_eq!(p.row().checksum, 0x11E6_0398);
    let other = PageChecksumRow { id: 4, url: "stored".to_string(), checksum: 1 };
    let mut p = PageChecksum::from_page("u".to_string(), "Wikipedia", Some(other));
    assert!(!p.is_new());
    assert!(p.changed());
    assert_eq!(p.row().id, 4);
    assert_eq!(p.row().url, "stored");
    assert_eq!(p.row().checksum, 0x11E6_0398);
    p.set_id(8);
    assert_eq!(p.row().id, 8);
    assert!(p.changed());
}

#[test]
fn page_checksum_stored_row_makes_revisit_unchanged() {
    let old = PageChecksumRow { id: 2, url: "u".to_string(), checksum: 7 };
    let first = PageChecksum::from_page("u".to_string(), "new body", Some(old));
    assert!(first.changed());
    let stored = PageChecksumRow {
        id: first.row().id,
        url: first.row().url.clone(),
        checksum: first.row().checksum,
    };
    let again = PageChecksum::from_page("u".to_string(), "new body", Some(stored));
    assert!(!again.is_new());
    assert!(!again.changed());
}

#[test]
fn video_url_from_pairs_takes_first_url_pair() {
    let pairs = vec![
        ("a".to_string(), "1".to_string()),
        ("url".to_string(), "x%20y".to_string()),
        ("url".to_string(), "second".to_string()),
    ];
    assert_eq!(video_url_from_pairs(&pairs), Ok(Some("x y".to_string())));
    assert_eq!(video_url_from_pairs(&vec![("a".to_string(), "1".to_string())]), Ok(None));
    assert_eq!(
        video_url_from_pairs(&vec![("url".to_string(), "%FF".to_string())]),
        Err(ScrapeError::InvalidUtf8)
    );
}

#[test]
fn episode_from_selections() {
    let title = Some(vec![vec!["Ep 1".to_string()]]);
    let names = Some(vec![Some("S".to_string())]);
    let sources = Some(vec![Some("https://p.example/?url=v".to_string())]);
    let episode = Episode::from_selections(title, names.clone(), sources.clone()).unwrap().unwrap();
    assert_eq!(episode.title, "Ep 1");
    assert_eq!(episode.servers.len(), 1);
    assert_eq!(episode.servers[0].url, "v");
    assert!(Episode::from_selections(Some(vec![]), names.clone(), sources.clone()).is_none());
    assert!(Episode::from_selections(Some(vec![vec!["T".to_string()]]), None, sources).is_none());
}
