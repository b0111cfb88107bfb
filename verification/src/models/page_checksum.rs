//! Whether an anime page is new or changed since it was last scraped,
//! by the Adler-32 checksum of its body.

use vstd::prelude::*;
use vstd::string::*;

use crate::checksum::{adler32, body_checksum};

verus! {

/// A stored checksum of a page; `id` is the row id once stored, 0 before.
pub struct PageChecksumRow {
    pub id: i64,
    pub url: String,
    pub checksum: i64,
}

/// The checksum of a page just fetched, with what the stored one says of
/// it.
pub struct PageChecksum {
    row: PageChecksumRow,
    is_new: bool,
    changed: bool,
}

/// The checksum that is stored for a page body: its Adler-32 checksum.
pub open spec fn stored_checksum_of(body: &str) -> i64 {
    adler32(body.spec_bytes()) as i64
}

impl PageChecksum {
    /// The row: the stored one, or a new one with the body's checksum.
    pub closed spec fn spec_row(&self) -> &PageChecksumRow {
        &self.row
    }

    /// Whether no checksum was stored for the page.
    pub closed spec fn spec_is_new(&self) -> bool {
        self.is_new
    }

    /// Whether a checksum was stored for the page and differs from its
    /// body's.
    pub closed spec fn spec_changed(&self) -> bool {
        self.changed
    }

    /// Compares the body of the page at `url` with `existing`, the checksum
    /// row stored for that URL, if any. A page without a row is new (and not
    /// changed), with a new row (id 0) holding the body's checksum. A page
    /// with a row is changed exactly where the row's checksum differs from
    /// the body's; its row keeps its id and URL and takes the body's
    /// checksum, so that storing the row records the page as it is now.
    pub fn from_page(url: String, body: &str, existing: Option<PageChecksumRow>) -> (p: Self)
        ensures
            p.spec_is_new() == (existing is None),
            p.spec_changed() == (existing matches Some(row) && row.checksum != stored_checksum_of(
                body,
            )),
            p.spec_row().checksum == stored_checksum_of(body),
            match existing {
                None => {
                    &&& p.spec_row().id == 0
                    &&& p.spec_row().url@ == url@
                },
                Some(row) => {
                    &&& p.spec_row().id == row.id
                    &&& p.spec_row().url == row.url
                },
            },
    {
        let checksum = body_checksum(body) as i64;
        match existing {
            Some(row) => {
                let changed = row.checksum != checksum;
                PageChecksum {
                    row: PageChecksumRow { id: row.id, url: row.url, checksum },
                    is_new: false,
                    changed,
                }
            },
            None => PageChecksum {
                row: PageChecksumRow { id: 0, url, checksum },
                is_new: true,
                changed: false,
            },
        }
    }

    /// Returns true if the PageChecksum did not exist.
    pub fn is_new(&self) -> (b: bool)
        ensures
            b == self.spec_is_new(),
    {
        self.is_new
    }

    /// Returns true if the PageChecksum existed but the checksum changed.
    pub fn changed(&self) -> (b: bool)
        ensures
            b == self.spec_changed(),
    {
        self.changed
    }

    /// The row of the page's checksum.
    pub fn row(&self) -> (r: &PageChecksumRow)
        ensures
            r == self.spec_row(),
    {
        &self.row
    }

    /// Records the row id under which the row was stored.
    pub fn set_id(&mut self, id: i64)
        ensures
            final(self).spec_row().id == id,
            final(self).spec_row().url == old(self).spec_row().url,
            final(self).spec_row().checksum == old(self).spec_row().checksum,
            final(self).spec_is_new() == old(self).spec_is_new(),
            final(self).spec_changed() == old(self).spec_changed(),
    {
        self.row.id = id;
    }
}

} // verus!
