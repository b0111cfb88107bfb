//! What the scraper decides about each anime page it visits: scrape it
//! whole, add the episodes not yet stored, or leave it.

pub mod anime;
pub mod browse;
pub mod util;

use vstd::prelude::*;

use crate::html::{
    css_select_attribute, present_attributes, present_values, select_attribute, strings_view,
};
use crate::models::page_checksum::PageChecksum;

verus! {

/// The selector of the episode links of an anime page.
pub const EPISODE_LINK_SELECTOR: &'static str = "div.SerieCaps a.item";

/// What to do with an anime page.
#[derive(Debug, Clone, Copy, PartialEq, Eq, Structural)]
pub enum AnimeScrape {
    /// The page was never scraped: store the anime, all its episodes and
    /// the page's checksum.
    New,
    /// The page changed: store the episodes not stored yet and update the
    /// checksum.
    Changed,
    /// The page did not change: nothing to do.
    Unchanged,
}

/// Decides what to do with an anime page from its checksum.
pub fn scrape_decision(checksum: &PageChecksum) -> (d: AnimeScrape)
    ensures
        d == if checksum.spec_is_new() {
            AnimeScrape::New
        } else if checksum.spec_changed() {
            AnimeScrape::Changed
        } else {
            AnimeScrape::Unchanged
        },
{
    if checksum.is_new() {
        AnimeScrape::New
    } else if checksum.changed() {
        AnimeScrape::Changed
    } else {
        AnimeScrape::Unchanged
    }
}

/// The addresses that the episode links of an anime page point to, in
/// order, skipping links without `href`; `None` where the selector is
/// invalid.
pub fn episode_urls(anime_body: &str) -> (r: Option<Vec<String>>)
    ensures
        match css_select_attribute(anime_body@, EPISODE_LINK_SELECTOR@, "href"@) {
            None => r is None,
            Some(sel) => r matches Some(v) && strings_view(v@) == present_values(sel),
        },
{
    match select_attribute(anime_body, EPISODE_LINK_SELECTOR, "href") {
        None => None,
        Some(hrefs) => Some(present_attributes(&hrefs)),
    }
}

/// The addresses of `urls` whose flag in `stored` is false, in order.
pub open spec fn not_stored(urls: Seq<Seq<char>>, stored: Seq<bool>) -> Seq<Seq<char>>
    decreases urls.len(),
{
    if urls.len() == 0 {
        seq![]
    } else {
        let r = not_stored(urls.drop_last(), stored.take(urls.len() - 1));
        if stored[urls.len() - 1] {
            r
        } else {
            r.push(urls.last())
        }
    }
}

/// The number of `false` flags in `flags`.
pub open spec fn count_unstored(flags: Seq<bool>) -> nat
    decreases flags.len(),
{
    if flags.len() == 0 {
        0
    } else {
        count_unstored(flags.drop_last()) + if flags.last() {
            0nat
        } else {
            1nat
        }
    }
}

proof fn lemma_count_unstored_prefix(flags: Seq<bool>, i: int, j: int)
    requires
        0 <= i <= j <= flags.len(),
    ensures
        count_unstored(flags.take(i)) <= count_unstored(flags.take(j)),
        i < j && !flags[i] ==> count_unstored(flags.take(i)) < count_unstored(flags.take(j)),
    decreases j - i,
{
    if i < j {
        lemma_count_unstored_prefix(flags, i, j - 1);
        assert(flags.take(j).drop_last() =~= flags.take(j - 1));
        if i == j - 1 {
            assert(flags.take(j).last() == flags[i]);
        }
    }
}

/// The addresses not stored yet are kept, and only they, in order: the
/// result has one address per `false` flag, and the address at index `i`
/// with a `false` flag is the result's entry after the `false` flags before
/// `i`.
pub proof fn lemma_not_stored_keeps_exactly_unstored(urls: Seq<Seq<char>>, stored: Seq<bool>)
    requires
        urls.len() == stored.len(),
    ensures
        not_stored(urls, stored).len() == count_unstored(stored),
        forall|i: int|
            0 <= i < urls.len() && !stored[i] ==> not_stored(urls, stored)[count_unstored(
                #[trigger] stored.take(i),
            ) as int] == urls[i],
    decreases urls.len(),
{
    if urls.len() > 0 {
        let n = urls.len() as int;
        let st = stored.take(n - 1);
        lemma_not_stored_keeps_exactly_unstored(urls.drop_last(), st);
        assert(stored.drop_last() =~= st);
        assert(stored.take(n - 1) =~= stored.drop_last());
        assert forall|i: int|
            0 <= i < urls.len() && !stored[i] implies not_stored(urls, stored)[count_unstored(
                #[trigger] stored.take(i),
            ) as int] == urls[i] by {
            lemma_count_unstored_prefix(stored, i, n - 1);
            if i < n - 1 {
                assert(st.take(i) =~= stored.take(i));
                assert(urls.drop_last()[i] == urls[i]);
                assert(!st[i]);
                assert(not_stored(urls.drop_last(), st)[count_unstored(st.take(i)) as int]
                    == urls.drop_last()[i]);
            }
        }
    }
}

/// Keeps the episode addresses that are not stored yet; `stored[i]` tells
/// whether `urls[i]` is.
pub fn new_episode_urls(urls: &Vec<String>, stored: &Vec<bool>) -> (r: Vec<String>)
    requires
        urls.len() == stored.len(),
    ensures
        strings_view(r@) == not_stored(strings_view(urls@), stored@),
{
    let ghost u = strings_view(urls@);
    let mut out: Vec<String> = Vec::new();
    let mut i: usize = 0;
    while i < urls.len()
        invariant
            i <= urls.len() == stored.len(),
            u == strings_view(urls@),
            strings_view(out@) =~= not_stored(u.take(i as int), stored@.take(i as int)),
        decreases urls.len() - i,
    {
        assert(u.take(i + 1).drop_last() =~= u.take(i as int));
        assert(stored@.take(i + 1).take(i as int) =~= stored@.take(i as int));
        if !stored[i] {
            let ghost old_out = out@;
            out.push(urls[i].clone());
            assert(strings_view(out@) =~= strings_view(old_out).push(u[i as int]));
        }
        i = i + 1;
    }
    assert(u.take(i as int) =~= u);
    assert(stored@.take(i as int) =~= stored@);
    out
}

} // verus!
