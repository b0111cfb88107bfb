//! Fetched pages as they are stored: with the length in bytes of their
//! HTML.

use vstd::prelude::*;
use vstd::string::*;
use vstd::utf8::*;

verus! {

/// A stored browse page.
pub struct BrowsePage {
    pub id: i32,
    pub page: i32,
    pub url: String,
    pub html: String,
    pub html_len: i32,
}

/// A browse page to store.
pub struct NewBrowsePage {
    pub page: i32,
    pub url: String,
    pub html: String,
    pub html_len: i32,
}

/// The stored length of `html`: its length in UTF-8 bytes, as an `i32`
/// (wrapping, as `as i32` does, past `i32::MAX`).
pub open spec fn html_len_of(html: Seq<char>) -> i32 {
    (encode_utf8(html).len() as usize) as i32
}

fn byte_len(html: &String) -> (n: i32)
    ensures
        n == html_len_of(html@),
{
    #[verifier::truncate]
    (html.as_str().len() as i32)
}

impl NewBrowsePage {
    /// A browse page to store, with the byte length of its HTML.
    pub fn new(page: i32, url: String, html: String) -> (p: Self)
        ensures
            p.page == page,
            p.url@ == url@,
            p.html@ == html@,
            p.html_len == html_len_of(html@),
    {
        let html_len = byte_len(&html);
        Self { page, url, html, html_len }
    }
}

/// A stored anime page.
pub struct AnimePage {
    pub id: i32,
    pub title: String,
    pub url: String,
    pub html: String,
    pub html_len: i32,
}

/// An anime page to store.
pub struct NewAnimePage {
    pub title: String,
    pub url: String,
    pub html: String,
    pub html_len: i32,
}

impl NewAnimePage {
    /// An anime page to store, with the byte length of its HTML.
    pub fn new(title: String, url: String, html: String) -> (p: Self)
        ensures
            p.title@ == title@,
            p.url@ == url@,
            p.html@ == html@,
            p.html_len == html_len_of(html@),
    {
        let html_len = byte_len(&html);
        Self { title, url, html, html_len }
    }
}

/// A stored episode page.
pub struct EpisodePage {
    pub id: i32,
    pub anime_id: i32,
    pub number: i32,
    pub url: String,
    pub html: String,
    pub html_len: i32,
}

/// An episode page to store.
pub struct NewEpisodePage {
    pub anime_id: i32,
    pub number: i32,
    pub url: String,
    pub html: String,
    pub html_len: i32,
}

impl NewEpisodePage {
    /// An episode page to store, with the byte length of its HTML.
    pub fn new(anime_id: i32, number: i32, url: String, html: String) -> (p: Self)
        ensures
            p.anime_id == anime_id,
            p.number == number,
            p.url@ == url@,
            p.html@ == html@,
            p.html_len == html_len_of(html@),
    {
        let html_len = byte_len(&html);
        Self { anime_id, number, url, html, html_len }
    }
}

} // verus!
