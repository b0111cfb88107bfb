//! Whether a fetched page needs scraping: its checksum against the stored
//! one.

use vstd::prelude::*;
use vstd::string::*;

use crate::checksum::{adler32, body_checksum};
use crate::page_checksum::{
    find_key, has_key, insert_spec, lemma_find_key_from, lemma_find_key_unique, lemma_insert_wf,
    lemma_update_wf, select_by_url, store_wf, update_spec, ChecksumStore, PageChecksum,
    PageChecksumView, StoreError,
};

verus! {

/// The checksum stored for a page body: its Adler-32 checksum as an `i32`.
pub open spec fn page_checksum_of(body: &str) -> i32 {
    adler32(body.spec_bytes()) as i32
}

/// What `update_or_insert` does to the store `s` for a page of `section` at
/// `url` whose body has the checksum `checksum`: where a checksum is stored
/// and differs, it is replaced and the answer is `true`; where it is stored
/// and equal, nothing changes and the answer is `false`; where none is
/// stored, the page is inserted and the answer is `true` (or the insert's
/// error).
pub open spec fn update_or_insert_spec(
    s: Seq<PageChecksumView>,
    section: Seq<char>,
    url: Seq<char>,
    checksum: i32,
) -> (Result<bool, StoreError>, Seq<PageChecksumView>) {
    match find_key(s, section, url) {
        Some(i) => if s[i].checksum != checksum {
            (Ok(true), update_spec(s, section, url, checksum))
        } else {
            (Ok(false), s)
        },
        None => {
            let (r, after) = insert_spec(
                s,
                PageChecksumView { id: 0, section, url, checksum },
            );
            (
                match r {
                    Ok(_) => Ok(true),
                    Err(e) => Err(e),
                },
                after,
            )
        },
    }
}

/// Stores the checksum of `body` for the page of `section` at `url`.
/// Returns true if it needed to be updated or inserted.
pub fn update_or_insert(store: &mut ChecksumStore, url: &str, body: &str, section: &str) -> (r:
    Result<bool, StoreError>)
    requires
        store_wf(old(store)@),
    ensures
        (r, final(store)@) == update_or_insert_spec(
            old(store)@,
            section@,
            url@,
            page_checksum_of(body),
        ),
        store_wf(final(store)@),
{
    let checksum = body_checksum(body) as i32;
    if let Some(mut stored_page) = select_by_url(store, section, url) {
        proof {
            lemma_find_key_from(store@, section@, url@, 0);
        }
        if checksum != stored_page.checksum {
            stored_page.checksum = checksum;
            stored_page.update(store);
            return Ok(true);
        }
    } else {
        let new_page = PageChecksum {
            id: 0,
            checksum,
            section: section.to_owned(),
            url: url.to_owned(),
        };
        return match new_page.insert(store) {
            Ok(()) => Ok(true),
            Err(e) => Err(e),
        };
    }
    return Ok(false);
}

/// After a page is visited, its checksum is the one stored under its
/// section and URL.
pub proof fn lemma_visit_stores_checksum(
    s: Seq<PageChecksumView>,
    section: Seq<char>,
    url: Seq<char>,
    checksum: i32,
)
    requires
        store_wf(s),
        update_or_insert_spec(s, section, url, checksum).0 is Ok,
    ensures
        ({
            let after = update_or_insert_spec(s, section, url, checksum).1;
            &&& store_wf(after)
            &&& find_key(after, section, url) matches Some(i) && after[i].checksum == checksum
        }),
{
    lemma_find_key_from(s, section, url, 0);
    let after = update_or_insert_spec(s, section, url, checksum).1;
    match find_key(s, section, url) {
        Some(i) => {
            lemma_update_wf(s, section, url, checksum);
            lemma_find_key_unique(after, section, url, i);
        },
        None => {
            lemma_insert_wf(s, PageChecksumView { id: 0, section, url, checksum });
            lemma_find_key_unique(after, section, url, s.len() as int);
        },
    }
}

/// A page visited again with an unchanged body is reported unchanged, and
/// the store stays as it is: an unchanged page is scraped once.
pub proof fn lemma_unchanged_page_is_skipped(
    s: Seq<PageChecksumView>,
    section: Seq<char>,
    url: Seq<char>,
    checksum: i32,
)
    requires
        store_wf(s),
        update_or_insert_spec(s, section, url, checksum).0 is Ok,
    ensures
        ({
            let after = update_or_insert_spec(s, section, url, checksum).1;
            update_or_insert_spec(after, section, url, checksum) == (
                Ok::<bool, StoreError>(false),
                after,
            )
        }),
{
    lemma_visit_stores_checksum(s, section, url, checksum);
}

/// A page whose stored checksum differs from its body's is reported
/// changed, as is a page that was never stored.
pub proof fn lemma_changed_page_is_reported(
    s: Seq<PageChecksumView>,
    section: Seq<char>,
    url: Seq<char>,
    checksum: i32,
)
    requires
        store_wf(s),
        update_or_insert_spec(s, section, url, checksum).0 is Ok,
    ensures
        update_or_insert_spec(s, section, url, checksum).0 == Ok::<bool, StoreError>(true) <==> (
        match find_key(s, section, url) {
            None => true,
            Some(i) => s[i].checksum != checksum,
        }),
{
}

/// Visiting a page changes no other page: what is stored under any other
/// section and URL stays.
pub proof fn lemma_visit_keeps_other_pages(
    s: Seq<PageChecksumView>,
    section: Seq<char>,
    url: Seq<char>,
    checksum: i32,
    other_section: Seq<char>,
    other_url: Seq<char>,
)
    requires
        store_wf(s),
        update_or_insert_spec(s, section, url, checksum).0 is Ok,
        other_section != section || other_url != url,
    ensures
        ({
            let after = update_or_insert_spec(s, section, url, checksum).1;
            match find_key(s, other_section, other_url) {
                None => find_key(after, other_section, other_url) is None,
                Some(i) => find_key(after, other_section, other_url) == Some(i) && after[i]
                    == s[i],
            }
        }),
{
    let after = update_or_insert_spec(s, section, url, checksum).1;
    lemma_visit_stores_checksum(s, section, url, checksum);
    lemma_find_key_from(s, other_section, other_url, 0);
    lemma_find_key_from(s, section, url, 0);
    match find_key(s, section, url) {
        Some(_) => lemma_update_wf(s, section, url, checksum),
        None => {},
    }
    match find_key(s, other_section, other_url) {
        Some(i) => {
            assert(has_key(after[i], other_section, other_url));
            lemma_find_key_unique(after, other_section, other_url, i);
        },
        None => {
            lemma_find_key_from(after, other_section, other_url, 0);
            match find_key(after, other_section, other_url) {
                Some(j) => {
                    assert(j < s.len());
                    assert(has_key(s[j], other_section, other_url));
                },
                None => {},
            }
        },
    }
}

} // verus!
