//! The browse pages: the list of all animes, page by page.

use vstd::prelude::*;

use crate::fetchers::browse_url_for;

verus! {

/// The section under which browse pages' checksums are stored.
pub const BROWSE_SECTION: &'static str = "browse";

/// The addresses of browse pages 1 to `num_pages`, in order.
pub fn build_browse_urls(num_pages: u32) -> (urls: Vec<String>)
    ensures
        urls@.len() == num_pages,
        forall|i: int| 0 <= i < num_pages ==> #[trigger] urls@[i]@ == browse_url_for((i + 1) as nat),
{
    crate::fetchers::build_browse_urls(num_pages)
}

} // verus!
