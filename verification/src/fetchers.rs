//! The pages to fetch: browse page addresses, the number of browse pages,
//! the addresses that anchors point to, and which fetches succeeded.

use vstd::prelude::*;

use crate::error::{Field, ScrapeError};
use crate::html::{
    all_attributes, all_present, css_select_attribute, css_select_texts,
    first_text, first_text_spec, opt_texts_view, select_attribute, select_texts, strings_view,
};
use crate::text::{decimal, decimal_string, parse_u32, parse_u32_spec};

verus! {

/// The address of the list of all animes, page by page.
pub const BROWSE_URL: &'static str = "https://monoschinos2.com/animes";

/// The selector of the link to the last browse page.
pub const LAST_PAGE_SELECTOR: &'static str = "li.page-item:nth-last-child(2) > a.page-link";

/// The address of browse page `page`: `BROWSE_URL?page=<page>`.
pub open spec fn browse_url_for(page: nat) -> Seq<char> {
    BROWSE_URL@ + "?page="@ + decimal(page)
}

/// The addresses of browse pages 1 to `num_pages`, in order.
pub fn build_browse_urls(num_pages: u32) -> (urls: Vec<String>)
    ensures
        urls@.len() == num_pages,
        forall|i: int| 0 <= i < num_pages ==> #[trigger] urls@[i]@ == browse_url_for((i + 1) as nat),
{
    let mut urls: Vec<String> = Vec::new();
    let mut k: u32 = 0;
    while k < num_pages
        invariant
            k <= num_pages,
            urls@.len() == k,
            forall|i: int| 0 <= i < k ==> #[trigger] urls@[i]@ == browse_url_for((i + 1) as nat),
        decreases num_pages - k,
    {
        let page = k + 1;
        let mut url = BROWSE_URL.to_owned();
        url.append("?page=");
        url.append(decimal_string(page).as_str());
        urls.push(url);
        k = k + 1;
    }
    urls
}

/// The number of browse pages that the first browse page shows in its
/// last page link (`selection` is what `LAST_PAGE_SELECTOR` selects of it,
/// `None` where the selector is invalid).
pub open spec fn last_page_spec(selection: Option<Seq<Seq<Seq<char>>>>) -> Result<u32, ScrapeError> {
    match selection {
        None => Err(ScrapeError::InvalidSelector),
        Some(sel) => match first_text_spec(sel, Field::LastPage) {
            Err(e) => Err(e),
            Ok(text) => match parse_u32_spec(text) {
                None => Err(ScrapeError::InvalidPageNumber),
                Some(n) => Ok(n),
            },
        },
    }
}

/// Reads the number of browse pages from the selection of the last page
/// link: its first text, parsed as a `u32`.
pub fn last_page_from_selection(selection: Option<Vec<Vec<String>>>) -> (r: Result<u32, ScrapeError>)
    ensures
        r == last_page_spec(opt_texts_view(selection)),
{
    let selection = match selection {
        Some(s) => s,
        None => return Err(ScrapeError::InvalidSelector),
    };
    let text = match first_text(&selection, Field::LastPage) {
        Ok(t) => t,
        Err(e) => return Err(e),
    };
    match parse_u32(text.as_str()) {
        Some(n) => Ok(n),
        None => Err(ScrapeError::InvalidPageNumber),
    }
}

/// The number of browse pages, read from the first browse page.
pub fn last_page_number(browse_page: &str) -> (r: Result<u32, ScrapeError>)
    ensures
        r == last_page_spec(css_select_texts(browse_page@, LAST_PAGE_SELECTOR@)),
{
    last_page_from_selection(select_texts(browse_page, LAST_PAGE_SELECTOR))
}

/// The addresses that the anchors `anchors_selector` selects in `body`
/// point to; `None` where the selector is invalid or an anchor has no
/// `href` (there the page is not of the shape the fetch reads).
pub fn anchor_urls(body: &str, anchors_selector: &str) -> (r: Option<Vec<String>>)
    ensures
        match css_select_attribute(body@, anchors_selector@, "href"@) {
            None => r is None,
            Some(sel) => match r {
                Some(v) => all_present(sel) == Some(strings_view(v@)),
                None => all_present(sel) is None,
            },
        },
{
    match select_attribute(body, anchors_selector, "href") {
        None => None,
        Some(hrefs) => all_attributes(&hrefs),
    }
}

/// The pages of the fetches that succeeded, in order.
pub open spec fn successful(results: Seq<Option<(String, String)>>) -> Seq<(String, String)>
    decreases results.len(),
{
    if results.len() == 0 {
        seq![]
    } else {
        let r = successful(results.drop_last());
        match results.last() {
            Some(page) => r.push(page),
            None => r,
        }
    }
}

/// Keeps the `(url, body)` of each fetch that succeeded, in order, and
/// drops the failed ones.
pub fn fetched_pages(results: Vec<Option<(String, String)>>) -> (pages: Vec<(String, String)>)
    ensures
        pages@ == successful(results@),
{
    let mut pages: Vec<(String, String)> = Vec::new();
    let mut i: usize = 0;
    while i < results.len()
        invariant
            i <= results.len(),
            pages@ == successful(results@.take(i as int)),
        decreases results.len() - i,
    {
        assert(results@.take(i + 1).drop_last() =~= results@.take(i as int));
        match &results[i] {
            Some(page) => {
                pages.push((page.0.clone(), page.1.clone()));
            },
            None => {},
        }
        i = i + 1;
    }
    assert(results@.take(i as int) =~= results@);
    pages
}

} // verus!
