use mc_scraper::checksum::body_checksum;
use mc_scraper::page_checksum::{
    anime_checksums, browse_checksums, episode_checksums, page_checksums, select_by_url,
    ChecksumStore, PageChecksum, StoreError,
};
use mc_scraper::scraper::util::update_or_insert;

fn page(section: &str, url: &str, checksum: i32) -> PageChecksum {
    PageChecksum { id: 0, section: section.to_string(), url: url.to_string(), checksum }
}

#[test]
fn insert_assigns_ids_and_refuses_duplicates() {
    let mut store = ChecksumStore::new();
    assert_eq!(page("browse", "u1", 10).insert(&mut store), Ok(()));
    assert_eq!(page("anime", "u1", 11).insert(&mut store), Ok(()));
    assert_eq!(page("browse", "u1", 12).insert(&mut store), Err(StoreError::AlreadyStored));
    let stored = select_by_url(&store, "browse", "u1").unwrap();
    assert_eq!((stored.id, stored.checksum), (1, 10));
    let stored = select_by_url(&store, "anime", "u1").unwrap();
    assert_eq!((stored.id, stored.checksum), (2, 11));
    assert!(select_by_url(&store, "episode", "u1").is_none());
}

#[test]
fn update_sets_only_the_matching_page() {
    let mut store = ChecksumStore::new();
    page("browse", "u1", 10).insert(&mut store).unwrap();
    page("browse", "u2", 20).insert(&mut store).unwrap();
    page("browse", "u1", 99).update(&mut store);
    assert_eq!(select_by_url(&store, "browse", "u1").unwrap().checksum, 99);
    assert_eq!(select_by_url(&store, "browse", "u2").unwrap().checksum, 20);
    page("browse", "absent", 5).update(&mut store);
    assert!(select_by_url(&store, "browse", "absent").is_none());
    assert_eq!(page_checksums(&store, "browse").len(), 2);
}

#[test]
fn checksums_by_section_in_insertion_order() {
    let mut store = ChecksumStore::new();
    page("browse", "b1", 1).insert(&mut store).unwrap();
    page("anime", "a1", 2).insert(&mut store).unwrap();
    page("episode", "e1", 3).insert(&mut store).unwrap();
    page("browse", "b2", 4).insert(&mut store).unwrap();
    let urls = |v: Vec<PageChecksum>| v.into_iter().map(|p| p.url).collect::<Vec<_>>();
    assert_eq!(urls(browse_checksums(&store)), vec!["b1", "b2"]);
    assert_eq!(urls(anime_checksums(&store)), vec!["a1"]);
    assert_eq!(urls(episode_checksums(&store)), vec!["e1"]);
    assert!(page_checksums(&store, "other").is_empty());
}

#[test]
fn update_or_insert_new_page_is_inserted() {
    let mut store = ChecksumStore::new();
    assert_eq!(update_or_insert(&mut store, "u", "Wikipedia", "anime"), Ok(true));
    let stored = select_by_url(&store, "anime", "u").unwrap();
    assert_eq!(stored.checksum, 0x11E6_0398);
    assert_eq!(stored.id, 1);
}

#[test]
fn update_or_insert_unchanged_page_is_skipped() {
    let mut store = ChecksumStore::new();
    assert_eq!(update_or_insert(&mut store, "u", "<html>same</html>", "browse"), Ok(true));
    assert_eq!(update_or_insert(&mut store, "u", "<html>same</html>", "browse"), Ok(false));
    assert_eq!(update_or_insert(&mut store, "u", "<html>same</html>", "browse"), Ok(false));
    assert_eq!(page_checksums(&store, "browse").len(), 1);
}

#[test]
fn update_or_insert_changed_page_is_reported() {
    let mut store = ChecksumStore::new();
    update_or_insert(&mut store, "u", "version 1", "anime").unwrap();
    update_or_insert(&mut store, "v", "other page", "anime").unwrap();
    assert_eq!(update_or_insert(&mut store, "u", "version 2", "anime"), Ok(true));
    let stored = select_by_url(&store, "anime", "u").unwrap();
    assert_eq!(stored.checksum, body_checksum("version 2") as i32);
    assert_eq!(stored.id, 1);
    let other = select_by_url(&store, "anime", "v").unwrap();
    assert_eq!(other.checksum, body_checksum("other page") as i32);
    assert_eq!(update_or_insert(&mut store, "u", "version 2", "anime"), Ok(false));
}

#[test]
fn update_or_insert_sections_are_separate() {
    let mut store = ChecksumStore::new();
    assert_eq!(update_or_insert(&mut store, "u", "body", "browse"), Ok(true));
    assert_eq!(update_or_insert(&mut store, "u", "body", "anime"), Ok(true));
    assert_eq!(browse_checksums(&store).len(), 1);
    assert_eq!(anime_checksums(&store).len(), 1);
}
