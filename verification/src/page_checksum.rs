//! The store of page checksums, by section (`browse`, `anime`, `episode`)
//! and URL: what tells, on the next visit of a page, whether it changed.

use vstd::prelude::*;

verus! {

/// The checksum of a page, stored under its section and URL; `id` is the
/// row id once stored.
pub struct PageChecksum {
    pub id: i32,
    pub section: String,
    pub url: String,
    pub checksum: i32,
}

/// What a `PageChecksum` holds, as characters.
pub struct PageChecksumView {
    pub id: i32,
    pub section: Seq<char>,
    pub url: Seq<char>,
    pub checksum: i32,
}

impl View for PageChecksum {
    type V = PageChecksumView;

    open spec fn view(&self) -> PageChecksumView {
        PageChecksumView {
            id: self.id,
            section: self.section@,
            url: self.url@,
            checksum: self.checksum,
        }
    }
}

/// Why the store refused a page.
#[derive(Debug, Clone, Copy, PartialEq, Eq, Structural)]
pub enum StoreError {
    /// A checksum is already stored for the page's section and URL.
    AlreadyStored,
    /// The store holds `i32::MAX` pages: no row id is left.
    IdsExhausted,
}

/// The stored checksums, in the order they were inserted.
pub struct ChecksumStore {
    pages: Vec<PageChecksum>,
}

/// Whether `p` is stored under `section` and `url`.
pub open spec fn has_key(p: PageChecksumView, section: Seq<char>, url: Seq<char>) -> bool {
    p.section == section && p.url == url
}

/// A well-formed store: no two pages under one section and URL, and the
/// page at index `i` has the row id `i + 1`.
pub open spec fn store_wf(s: Seq<PageChecksumView>) -> bool {
    &&& forall|i: int, j: int|
        0 <= i < j < s.len() ==> !has_key(#[trigger] s[i], s[j].section, #[trigger] s[j].url)
    &&& forall|i: int| 0 <= i < s.len() ==> #[trigger] s[i].id == i + 1
}

/// The index of the first page stored under `section` and `url`, from
/// index `i` on.
pub open spec fn find_key_from(s: Seq<PageChecksumView>, section: Seq<char>, url: Seq<char>, i: int) -> Option<int>
    decreases s.len() - i,
{
    if i < 0 || i >= s.len() {
        None
    } else if has_key(s[i], section, url) {
        Some(i)
    } else {
        find_key_from(s, section, url, i + 1)
    }
}

/// The index of the page stored under `section` and `url`.
pub open spec fn find_key(s: Seq<PageChecksumView>, section: Seq<char>, url: Seq<char>) -> Option<int> {
    find_key_from(s, section, url, 0)
}

/// The pages of `section`, in order.
pub open spec fn in_section(s: Seq<PageChecksumView>, section: Seq<char>) -> Seq<PageChecksumView>
    decreases s.len(),
{
    if s.len() == 0 {
        seq![]
    } else {
        let r = in_section(s.drop_last(), section);
        if s.last().section == section {
            r.push(s.last())
        } else {
            r
        }
    }
}

/// The store after `page` is inserted: refused where its section and URL
/// are taken or no row id is left, else appended with the next row id.
pub open spec fn insert_spec(s: Seq<PageChecksumView>, page: PageChecksumView) -> (
    Result<(), StoreError>,
    Seq<PageChecksumView>,
) {
    if find_key(s, page.section, page.url) is Some {
        (Err(StoreError::AlreadyStored), s)
    } else if s.len() >= i32::MAX {
        (Err(StoreError::IdsExhausted), s)
    } else {
        (
            Ok(()),
            s.push(
                PageChecksumView {
                    id: (s.len() + 1) as i32,
                    section: page.section,
                    url: page.url,
                    checksum: page.checksum,
                },
            ),
        )
    }
}

/// `p` with the checksum `checksum` where it is stored under `section` and
/// `url`.
pub open spec fn with_checksum(p: PageChecksumView, section: Seq<char>, url: Seq<char>, checksum: i32) -> PageChecksumView {
    if has_key(p, section, url) {
        PageChecksumView { id: p.id, section: p.section, url: p.url, checksum }
    } else {
        p
    }
}

/// The store after the checksum of the page under `section` and `url` is
/// set to `checksum`; the other pages stay.
pub open spec fn update_spec(s: Seq<PageChecksumView>, section: Seq<char>, url: Seq<char>, checksum: i32) -> Seq<
    PageChecksumView,
> {
    s.map_values(|p: PageChecksumView| with_checksum(p, section, url, checksum))
}

pub proof fn lemma_find_key_from(s: Seq<PageChecksumView>, section: Seq<char>, url: Seq<char>, i: int)
    requires
        0 <= i,
    ensures
        find_key_from(s, section, url, i) matches Some(j) ==> i <= j < s.len() && has_key(
            s[j],
            section,
            url,
        ) && forall|k: int| i <= k < j ==> !has_key(#[trigger] s[k], section, url),
        find_key_from(s, section, url, i) is None ==> forall|k: int|
            i <= k < s.len() ==> !has_key(#[trigger] s[k], section, url),
    decreases s.len() - i,
{
    if i < s.len() && !has_key(s[i], section, url) {
        lemma_find_key_from(s, section, url, i + 1);
    }
}

/// In a well-formed store, the page under `section` and `url` is found at
/// its index.
pub proof fn lemma_find_key_unique(s: Seq<PageChecksumView>, section: Seq<char>, url: Seq<char>, j: int)
    requires
        store_wf(s),
        0 <= j < s.len(),
        has_key(s[j], section, url),
    ensures
        find_key(s, section, url) == Some(j),
{
    lemma_find_key_from(s, section, url, 0);
    match find_key(s, section, url) {
        Some(k) => {
            if k < j {
                assert(!has_key(s[k], s[j].section, s[j].url));
            }
        },
        None => {},
    }
}

/// Inserting keeps a store well-formed.
pub proof fn lemma_insert_wf(s: Seq<PageChecksumView>, page: PageChecksumView)
    requires
        store_wf(s),
    ensures
        store_wf(insert_spec(s, page).1),
{
    lemma_find_key_from(s, page.section, page.url, 0);
}

/// Updating a checksum keeps a store well-formed, and keeps every page's
/// id, section and URL at its index.
pub proof fn lemma_update_wf(s: Seq<PageChecksumView>, section: Seq<char>, url: Seq<char>, checksum: i32)
    requires
        store_wf(s),
    ensures
        store_wf(update_spec(s, section, url, checksum)),
        update_spec(s, section, url, checksum).len() == s.len(),
        forall|i: int|
            0 <= i < s.len() ==> {
                let p = #[trigger] update_spec(s, section, url, checksum)[i];
                &&& p.id == s[i].id
                &&& p.section == s[i].section
                &&& p.url == s[i].url
                &&& p.checksum == if has_key(s[i], section, url) {
                    checksum
                } else {
                    s[i].checksum
                }
            },
{
    let u = update_spec(s, section, url, checksum);
    assert forall|i: int, j: int| 0 <= i < j < u.len() implies !has_key(
        #[trigger] u[i],
        u[j].section,
        #[trigger] u[j].url,
    ) by {
        assert(!has_key(s[i], s[j].section, s[j].url));
    }
}

/// The number of pages of `section` in `s`.
pub open spec fn count_in_section(s: Seq<PageChecksumView>, section: Seq<char>) -> nat
    decreases s.len(),
{
    if s.len() == 0 {
        0
    } else {
        count_in_section(s.drop_last(), section) + if s.last().section == section {
            1nat
        } else {
            0nat
        }
    }
}

proof fn lemma_count_in_section_prefix(s: Seq<PageChecksumView>, section: Seq<char>, i: int, j: int)
    requires
        0 <= i <= j <= s.len(),
    ensures
        count_in_section(s.take(i), section) <= count_in_section(s.take(j), section),
        i < j && s[i].section == section ==> count_in_section(s.take(i), section) < count_in_section(
            s.take(j),
            section,
        ),
    decreases j - i,
{
    if i < j {
        lemma_count_in_section_prefix(s, section, i, j - 1);
        assert(s.take(j).drop_last() =~= s.take(j - 1));
        if i == j - 1 {
            assert(s.take(j).last() == s[i]);
        }
    }
}

/// The checksums listed for a section are the stored pages of that section
/// as they are stored (row id included), each once, in the order they were
/// inserted: one per page of the section, and the page at index `j` is the
/// list's entry after the section's pages before `j`.
pub proof fn lemma_in_section_lists_stored_pages(s: Seq<PageChecksumView>, section: Seq<char>)
    ensures
        in_section(s, section).len() == count_in_section(s, section),
        forall|k: int|
            0 <= k < in_section(s, section).len() ==> (#[trigger] in_section(s, section)[k]).section
                == section,
        forall|j: int|
            0 <= j < s.len() && s[j].section == section ==> in_section(s, section)[count_in_section(
                #[trigger] s.take(j),
                section,
            ) as int] == s[j],
    decreases s.len(),
{
    if s.len() > 0 {
        let n = s.len() as int;
        let d = s.drop_last();
        lemma_in_section_lists_stored_pages(d, section);
        assert(s.take(n - 1) =~= d);
        assert forall|j: int|
            0 <= j < s.len() && s[j].section == section implies in_section(s, section)[count_in_section(
                #[trigger] s.take(j),
                section,
            ) as int] == s[j] by {
            lemma_count_in_section_prefix(s, section, j, n - 1);
            if j < n - 1 {
                assert(d.take(j) =~= s.take(j));
                assert(d[j] == s[j]);
                assert(in_section(d, section)[count_in_section(d.take(j), section) as int] == d[j]);
            }
        }
        assert forall|k: int|
            0 <= k < in_section(s, section).len() implies (#[trigger] in_section(s, section)[k]).section
                == section by {
            if k < in_section(d, section).len() {
                assert(in_section(d, section)[k].section == section);
            }
        }
    }
}

impl PageChecksum {
    fn duplicate(&self) -> (r: PageChecksum)
        ensures
            r@ == self@,
    {
        PageChecksum {
            id: self.id,
            section: self.section.clone(),
            url: self.url.clone(),
            checksum: self.checksum,
        }
    }

    /// Stores this page's checksum under its section and URL, with the
    /// next row id (the `id` of `self` is not used).
    pub fn insert(&self, store: &mut ChecksumStore) -> (r: Result<(), StoreError>)
        requires
            store_wf(old(store)@),
        ensures
            (r, final(store)@) == insert_spec(old(store)@, self@),
            store_wf(final(store)@),
    {
        match store.find(&self.section, &self.url) {
            Some(_) => return Err(StoreError::AlreadyStored),
            None => {},
        }
        if store.pages.len() >= i32::MAX as usize {
            return Err(StoreError::IdsExhausted);
        }
        let id = (store.pages.len() + 1) as i32;
        let page = PageChecksum {
            id,
            section: self.section.clone(),
            url: self.url.clone(),
            checksum: self.checksum,
        };
        let ghost before = store@;
        store.pages.push(page);
        proof {
            assert(store@ =~= insert_spec(before, self@).1);
            lemma_insert_wf(before, self@);
        }
        Ok(())
    }

    /// Sets the stored checksum of this page's section and URL to this
    /// page's checksum; nothing changes where none is stored.
    pub fn update(&self, store: &mut ChecksumStore)
        requires
            store_wf(old(store)@),
        ensures
            final(store)@ == update_spec(old(store)@, self.section@, self.url@, self.checksum),
            store_wf(final(store)@),
    {
        let ghost before = store@;
        let mut i: usize = 0;
        while i < store.pages.len()
            invariant
                i <= store.pages.len() == before.len(),
                store_wf(before),
                forall|k: int|
                    0 <= k < i ==> #[trigger] store@[k] == with_checksum(
                        before[k],
                        self.section@,
                        self.url@,
                        self.checksum,
                    ),
                forall|k: int| i <= k < before.len() ==> #[trigger] store@[k] == before[k],
            decreases before.len() - i,
        {
            assert(store@[i as int] == store.pages@[i as int]@);
            let same_section = store.pages[i].section == self.section;
            let same_url = store.pages[i].url == self.url;
            if same_section && same_url {
                let page = PageChecksum {
                    id: store.pages[i].id,
                    section: store.pages[i].section.clone(),
                    url: store.pages[i].url.clone(),
                    checksum: self.checksum,
                };
                let ghost mid = store@;
                assert(has_key(before[i as int], self.section@, self.url@));
                store.pages.set(i, page);
                assert(store@ =~= mid.update(i as int, page@));
                assert(store@[i as int] == with_checksum(
                    before[i as int],
                    self.section@,
                    self.url@,
                    self.checksum,
                ));
            } else {
                assert(!has_key(before[i as int], self.section@, self.url@));
            }
            i = i + 1;
        }
        assert(store@ =~= update_spec(before, self.section@, self.url@, self.checksum));
        proof {
            lemma_update_wf(before, self.section@, self.url@, self.checksum);
        }
    }
}

impl ChecksumStore {
    /// The stored pages, in the order they were inserted.
    pub closed spec fn view(&self) -> Seq<PageChecksumView> {
        self.pages@.map_values(|p: PageChecksum| p@)
    }

    /// An empty store.
    pub fn new() -> (s: Self)
        ensures
            s@ == Seq::<PageChecksumView>::empty(),
            store_wf(s@),
    {
        let s = ChecksumStore { pages: Vec::new() };
        assert(s@ =~= Seq::<PageChecksumView>::empty());
        s
    }

    /// The index of the page stored under `section` and `url`.
    fn find(&self, section: &String, url: &String) -> (r: Option<usize>)
        ensures
            match r {
                Some(i) => find_key(self@, section@, url@) == Some(i as int),
                None => find_key(self@, section@, url@) is None,
            },
    {
        let mut i: usize = 0;
        while i < self.pages.len()
            invariant
                i <= self.pages.len(),
                find_key(self@, section@, url@) == find_key_from(self@, section@, url@, i as int),
            decreases self.pages.len() - i,
        {
            if self.pages[i].section == *section && self.pages[i].url == *url {
                return Some(i);
            }
            i = i + 1;
        }
        None
    }
}

/// The checksums stored for `section`, in the order they were inserted.
pub fn page_checksums(store: &ChecksumStore, section: &str) -> (r: Vec<PageChecksum>)
    ensures
        r@.map_values(|p: PageChecksum| p@) == in_section(store@, section@),
{
    let section = section.to_owned();
    let mut out: Vec<PageChecksum> = Vec::new();
    let mut i: usize = 0;
    while i < store.pages.len()
        invariant
            i <= store.pages.len(),
            out@.map_values(|p: PageChecksum| p@) =~= in_section(store@.take(i as int), section@),
        decreases store.pages.len() - i,
    {
        let ghost before = out@;
        assert(store@.take(i + 1).drop_last() =~= store@.take(i as int));
        if store.pages[i].section == section {
            out.push(store.pages[i].duplicate());
            assert(out@.map_values(|p: PageChecksum| p@) =~= before.map_values(|p: PageChecksum| p@).push(store@[i as int]));
        }
        i = i + 1;
    }
    assert(store@.take(i as int) =~= store@);
    out
}

/// The checksums of the browse pages.
pub fn browse_checksums(store: &ChecksumStore) -> (r: Vec<PageChecksum>)
    ensures
        r@.map_values(|p: PageChecksum| p@) == in_section(store@, "browse"@),
{
    page_checksums(store, "browse")
}

/// The checksums of the anime pages.
pub fn anime_checksums(store: &ChecksumStore) -> (r: Vec<PageChecksum>)
    ensures
        r@.map_values(|p: PageChecksum| p@) == in_section(store@, "anime"@),
{
    page_checksums(store, "anime")
}

/// The checksums of the episode pages.
pub fn episode_checksums(store: &ChecksumStore) -> (r: Vec<PageChecksum>)
    ensures
        r@.map_values(|p: PageChecksum| p@) == in_section(store@, "episode"@),
{
    page_checksums(store, "episode")
}

/// The checksum stored under `section` and `url`, if any.
pub fn select_by_url(store: &ChecksumStore, section: &str, url: &str) -> (r: Option<PageChecksum>)
    ensures
        match r {
            Some(p) => find_key(store@, section@, url@) matches Some(i) && p@ == store@[i],
            None => find_key(store@, section@, url@) is None,
        },
{
    let section = section.to_owned();
    let url = url.to_owned();
    match store.find(&section, &url) {
        Some(i) => {
            proof {
                lemma_find_key_from(store@, section@, url@, 0);
            }
            Some(store.pages[i].duplicate())
        },
        None => None,
    }
}

} // verus!
