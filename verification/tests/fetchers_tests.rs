use mc_scraper::error::{Field, ScrapeError};
use mc_scraper::fetchers::{anchor_urls, build_browse_urls, fetched_pages, last_page_number};

const PAGINATION: &str = r#"<html><body><ul class="pagination"><li class="page-item"><a class="page-link" href="?page=1">1</a></li><li class="page-item"><a class="page-link" href="?page=2">2</a></li><li class="page-item"><a class="page-link" href="?page=37">37</a></li><li class="page-item"><a class="page-link" href="?page=2">Next</a></li></ul></body></html>"#;

#[test]
fn build_browse_urls_numbers_pages_from_one() {
    assert_eq!(
        build_browse_urls(3),
        vec![
            "https://monoschinos2.com/animes?page=1".to_string(),
            "https://monoschinos2.com/animes?page=2".to_string(),
            "https://monoschinos2.com/animes?page=3".to_string(),
        ]
    );
    assert!(build_browse_urls(0).is_empty());
}

#[test]
fn last_page_number_reads_the_last_page_link() {
    assert_eq!(last_page_number(PAGINATION), Ok(37));
}

#[test]
fn last_page_number_errors() {
    assert_eq!(
        last_page_number("<html><body><p>nothing</p></body></html>"),
        Err(ScrapeError::NoElementMatches(Field::LastPage))
    );
    let empty = r#"<ul><li class="page-item"><a class="page-link"></a></li><li class="page-item"><a class="page-link">Next</a></li></ul>"#;
    assert_eq!(last_page_number(empty), Err(ScrapeError::NoTextNode(Field::LastPage)));
    let words = r#"<ul><li class="page-item"><a class="page-link">many</a></li><li class="page-item"><a class="page-link">Next</a></li></ul>"#;
    assert_eq!(last_page_number(words), Err(ScrapeError::InvalidPageNumber));
}

#[test]
fn anchor_urls_reads_hrefs() {
    let body = r#"<div><a class="item" href="/a">A</a><a class="item" href="/b">B</a><a href="/c">C</a></div>"#;
    assert_eq!(anchor_urls(body, "a.item"), Some(vec!["/a".to_string(), "/b".to_string()]));
    assert_eq!(anchor_urls(body, "a.none"), Some(vec![]));
    assert_eq!(anchor_urls(body, "a["), None);
    let missing = r#"<div><a class="item" href="/a">A</a><a class="item">B</a></div>"#;
    assert_eq!(anchor_urls(missing, "a.item"), None);
}

#[test]
fn fetched_pages_keeps_successes_in_order() {
    let results = vec![
        Some(("u1".to_string(), "b1".to_string())),
        None,
        Some(("u3".to_string(), "b3".to_string())),
        None,
    ];
    assert_eq!(
        fetched_pages(results),
        vec![("u1".to_string(), "b1".to_string()), ("u3".to_string(), "b3".to_string())]
    );
    assert!(fetched_pages(vec![None, None]).is_empty());
}
