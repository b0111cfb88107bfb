use mc_scraper::downloader::{
    anime_links, anime_links_from_selection, anime_page_file_name, browse_page_file_name,
    browse_page_urls,
};
use mc_scraper::error::ScrapeError;
use mc_scraper::html::Html;
use mc_scraper::pages::{NewAnimePage, NewBrowsePage, NewEpisodePage};

#[test]
fn browse_page_urls_built_by_url_crate() {
    assert_eq!(
        browse_page_urls(2),
        Ok(vec![
            "https://monoschinos2.com/animes?page=1".to_string(),
            "https://monoschinos2.com/animes?page=2".to_string(),
        ])
    );
    assert_eq!(browse_page_urls(0), Ok(vec![]));
}

#[test]
fn file_names() {
    assert_eq!(browse_page_file_name(12), "12.html");
    assert_eq!(browse_page_file_name(0), "0.html");
    assert_eq!(anime_page_file_name("Fate/Zero"), "Fate---Zero.html");
    assert_eq!(anime_page_file_name("a//b/"), "a------b---.html");
    assert_eq!(anime_page_file_name("Naruto"), "Naruto.html");
    assert_eq!(anime_page_file_name(""), ".html");
    assert!(!anime_page_file_name("x/y/z").contains('/'));
}

#[test]
fn anime_links_of_a_browse_page() {
    let page = r#"<div><a class="link-anime" href="https://x/anime/1"><div><h3 class="Title">Naruto</h3></div></a><a class="link-anime" href="https://x/anime/2"><h3 class="Title">Fate/Zero</h3></a></div>"#;
    assert_eq!(
        anime_links(&Html::parse_document(page)),
        Some(Ok(vec![
            ("Naruto".to_string(), "https://x/anime/1".to_string()),
            ("Fate/Zero".to_string(), "https://x/anime/2".to_string()),
        ]))
    );
    let no_title = r#"<a class="link-anime" href="https://x/anime/1"><p>n</p></a>"#;
    assert_eq!(anime_links(&Html::parse_document(no_title)), None);
    let no_href = r#"<a class="link-anime"><h3 class="Title">N</h3></a>"#;
    assert_eq!(anime_links(&Html::parse_document(no_href)), None);
}

#[test]
fn anime_links_invalid_selector() {
    assert_eq!(anime_links_from_selection(None), Some(Err(ScrapeError::InvalidSelector)));
}

#[test]
fn new_pages_count_bytes() {
    let p = NewBrowsePage::new(3, "u".to_string(), "añ€".to_string());
    assert_eq!((p.page, p.html_len), (3, 6));
    let a = NewAnimePage::new("t".to_string(), "u".to_string(), "<html></html>".to_string());
    assert_eq!(a.html_len, 13);
    let e = NewEpisodePage::new(1, 2, "u".to_string(), String::new());
    assert_eq!((e.anime_id, e.number, e.html_len), (1, 2, 0));
}
