use mc_scraper::error::{Field, ScrapeError};
use mc_scraper::models::page_checksum::{PageChecksum, PageChecksumRow};
use mc_scraper::scraper::anime::{anime_links, extract_anime};
use mc_scraper::scraper::browse::build_browse_urls;
use mc_scraper::scraper::{episode_urls, new_episode_urls, scrape_decision, AnimeScrape};

#[test]
fn scrape_decision_follows_the_checksum() {
    let new = PageChecksum::from_page("u".to_string(), "body", None);
    assert_eq!(scrape_decision(&new), AnimeScrape::New);
    let row = PageChecksumRow { id: 1, url: "u".to_string(), checksum: 1 };
    let changed = PageChecksum::from_page("u".to_string(), "body", Some(row));
    assert_eq!(scrape_decision(&changed), AnimeScrape::Changed);
    let row = PageChecksumRow { id: 1, url: "u".to_string(), checksum: 1 };
    let same = PageChecksum::from_page("u".to_string(), "", Some(row));
    assert_eq!(scrape_decision(&same), AnimeScrape::Unchanged);
}

#[test]
fn episode_urls_skip_links_without_href() {
    let body = r#"<div class="SerieCaps"><a class="item" href="/ep/1">1</a><a class="item">2</a><a class="item" href="/ep/3">3</a></div><a class="item" href="/elsewhere">x</a>"#;
    assert_eq!(episode_urls(body), Some(vec!["/ep/1".to_string(), "/ep/3".to_string()]));
    assert_eq!(episode_urls("<p>none</p>"), Some(vec![]));
}

#[test]
fn new_episode_urls_keeps_unstored() {
    let urls = vec!["a".to_string(), "b".to_string(), "c".to_string()];
    assert_eq!(new_episode_urls(&urls, &vec![true, false, false]), vec!["b".to_string(), "c".to_string()]);
    assert!(new_episode_urls(&urls, &vec![true, true, true]).is_empty());
    assert!(new_episode_urls(&vec![], &vec![]).is_empty());
}

#[test]
fn anime_links_stop_at_missing_href() {
    let body = r#"<a class="link-anime" href="/a/1">1</a><a class="link-anime" href="/a/2">2</a>"#;
    assert_eq!(anime_links(body), Some((vec!["/a/1".to_string(), "/a/2".to_string()], None)));
    let broken = r#"<a class="link-anime" href="/a/1">1</a><a class="link-anime">2</a><a class="link-anime" href="/a/3">3</a>"#;
    assert_eq!(
        anime_links(broken),
        Some((vec!["/a/1".to_string()], Some(ScrapeError::MissingAttribute(Field::AnimeLink))))
    );
}

#[test]
fn extract_anime_reads_the_after_title_text() {
    let body = r#"<h1 class="Title">One Piece</h1><div class="Description">Pirates</div><div class="Type">En emision</div><div class="after_title">1999 | TV</div><div class="generos"><a>Aventura</a></div>"#;
    let anime = extract_anime(body).unwrap();
    assert_eq!(anime.title, "One Piece");
    assert_eq!(anime.synopsis, "Pirates");
    assert_eq!(anime.status, "En emision");
    assert_eq!(anime.release_date, "1999");
    assert_eq!(anime.kind, "TV");
    assert_eq!(anime.genres, vec!["Aventura".to_string()]);
    assert!(anime.episodes.is_empty());
}

#[test]
fn extract_anime_errors() {
    let no_release = r#"<h1 class="Title">One Piece</h1><div class="Description">Pirates</div><div class="Type">En emision</div>"#;
    assert_eq!(
        extract_anime(no_release).map(|a| a.title),
        Err(ScrapeError::NoElementMatches(Field::ReleaseDateAndKind))
    );
    let no_status = r#"<h1 class="Title">One Piece</h1><div class="Description">Pirates</div>"#;
    assert_eq!(
        extract_anime(no_status).map(|a| a.title),
        Err(ScrapeError::NoElementMatches(Field::Status))
    );
    let no_kind = r#"<h1 class="Title">T</h1><div class="Description">S</div><div class="Type">St</div><div class="after_title">1999</div>"#;
    assert_eq!(extract_anime(no_kind).map(|a| a.title), Err(ScrapeError::NoTextNode(Field::Kind)));
}

#[test]
fn browse_build_browse_urls_matches_fetchers() {
    assert_eq!(build_browse_urls(2), mc_scraper::fetchers::build_browse_urls(2));
    assert_eq!(build_browse_urls(1), vec!["https://monoschinos2.com/animes?page=1".to_string()]);
}
