//! Downloading the site to files: the browse pages' addresses, the animes
//! they link to, and the files the pages are written to.

use vstd::prelude::*;
use vstd::string::*;

use crate::error::ScrapeError;
use crate::fetchers::BROWSE_URL;
use crate::html::{css_select_within, nested_seq_view, nested_view, opt_nested_view, select_within, Html};
use crate::text::{decimal, decimal_string};
use crate::urls::{parse_with_param, url_with_query_param};

verus! {

/// The directory, under the output directory, of the browse pages.
pub const BROWSE_RELATIVE_PATH: &'static str = "browse/";

/// The directory, under the output directory, of the anime pages.
pub const ANIMES_RELATIVE_PATH: &'static str = "animes/";

/// The address of browse page `page`, as the `url` crate builds it.
pub open spec fn browse_page_url(page: nat) -> Option<Seq<char>> {
    url_with_query_param(BROWSE_URL@, "page"@, decimal(page))
}

/// The addresses of browse pages 1 to `num_pages`, each built by the `url`
/// crate with the query parameter `page`; `InvalidUrl` where one cannot be
/// built.
pub fn browse_page_urls(num_pages: u32) -> (r: Result<Vec<String>, ScrapeError>)
    ensures
        match r {
            Ok(urls) => urls@.len() == num_pages && forall|i: int|
                0 <= i < num_pages ==> browse_page_url((i + 1) as nat) == Some(
                    #[trigger] urls@[i]@,
                ),
            Err(e) => e == ScrapeError::InvalidUrl && exists|i: int|
                0 <= i < num_pages && #[trigger] browse_page_url((i + 1) as nat) is None,
        },
{
    let mut urls: Vec<String> = Vec::new();
    let mut k: u32 = 0;
    while k < num_pages
        invariant
            k <= num_pages,
            urls@.len() == k,
            forall|i: int|
                0 <= i < k ==> browse_page_url((i + 1) as nat) == Some(#[trigger] urls@[i]@),
        decreases num_pages - k,
    {
        let page = k + 1;
        let value = decimal_string(page);
        match parse_with_param(BROWSE_URL, "page", value.as_str()) {
            Ok(url) => urls.push(url),
            Err(_) => {
                assert(browse_page_url((k + 1) as nat) is None);
                return Err(ScrapeError::InvalidUrl);
            },
        }
        k = k + 1;
    }
    Ok(urls)
}

/// The file of browse page `page_num`: `<page_num>.html`.
pub fn browse_page_file_name(page_num: u32) -> (name: String)
    ensures
        name@ == decimal(page_num as nat) + ".html"@,
{
    let mut name = decimal_string(page_num);
    name.append(".html");
    name
}

/// `s` with each `/` replaced by `---`.
pub open spec fn replace_slashes(s: Seq<char>) -> Seq<char>
    decreases s.len(),
{
    if s.len() == 0 {
        seq![]
    } else {
        let r = replace_slashes(s.drop_last());
        if s.last() == '/' {
            r + "---"@
        } else {
            r.push(s.last())
        }
    }
}

proof fn lemma_replace_slashes_concat(a: Seq<char>, b: Seq<char>)
    ensures
        replace_slashes(a + b) == replace_slashes(a) + replace_slashes(b),
    decreases b.len(),
{
    if b.len() == 0 {
        assert(a + b =~= a);
        assert(replace_slashes(a) + replace_slashes(b) =~= replace_slashes(a));
    } else {
        assert((a + b).drop_last() =~= a + b.drop_last());
        lemma_replace_slashes_concat(a, b.drop_last());
        if b.last() == '/' {
            assert(replace_slashes(a) + replace_slashes(b.drop_last()) + "---"@ =~= replace_slashes(a)
                + (replace_slashes(b.drop_last()) + "---"@));
        } else {
            assert((replace_slashes(a) + replace_slashes(b.drop_last())).push(b.last()) =~= replace_slashes(a)
                + replace_slashes(b.drop_last()).push(b.last()));
        }
    }
}

proof fn lemma_replace_slashes_kept(s: Seq<char>)
    requires
        forall|i: int| 0 <= i < s.len() ==> s[i] != '/',
    ensures
        replace_slashes(s) == s,
    decreases s.len(),
{
    if s.len() > 0 {
        lemma_replace_slashes_kept(s.drop_last());
        assert(s.drop_last().push(s.last()) =~= s);
    }
}

proof fn lemma_replace_slashes_no_slash(s: Seq<char>)
    ensures
        forall|i: int| 0 <= i < replace_slashes(s).len() ==> replace_slashes(s)[i] != '/',
    decreases s.len(),
{
    reveal_strlit("---");
    if s.len() > 0 {
        lemma_replace_slashes_no_slash(s.drop_last());
        let r = replace_slashes(s.drop_last());
        if s.last() == '/' {
            assert forall|i: int| 0 <= i < (r + "---"@).len() implies (r + "---"@)[i] != '/' by {
                if i >= r.len() {
                    assert((r + "---"@)[i] == "---"@[i - r.len()]);
                }
            }
        } else {
            assert forall|i: int| 0 <= i < r.push(s.last()).len() implies r.push(s.last())[i] != '/' by {
                if i < r.len() {
                    assert(r.push(s.last())[i] == r[i]);
                }
            }
        }
    }
}

/// The file of an anime page is one file name that ends in `.html`: the
/// name with each `/` replaced by `---`, then `.html`; it holds no `/`,
/// and a name without `/` is kept as it is.
pub proof fn lemma_anime_page_file_name(name: Seq<char>)
    ensures
        replace_slashes(name + ".html"@) == replace_slashes(name) + ".html"@,
        forall|i: int|
            0 <= i < replace_slashes(name + ".html"@).len() ==> replace_slashes(name + ".html"@)[i]
                != '/',
        (forall|i: int| 0 <= i < name.len() ==> name[i] != '/') ==> replace_slashes(name
            + ".html"@) == name + ".html"@,
{
    reveal_strlit(".html");
    lemma_replace_slashes_concat(name, ".html"@);
    lemma_replace_slashes_kept(".html"@);
    lemma_replace_slashes_no_slash(name + ".html"@);
    if forall|i: int| 0 <= i < name.len() ==> name[i] != '/' {
        lemma_replace_slashes_kept(name);
    }
}

/// The file of the page of the anime `name`: `<name>.html`, with each `/`
/// replaced by `---` so that the name is one file name.
pub fn anime_page_file_name(name: &str) -> (file: String)
    ensures
        file@ == replace_slashes(name@ + ".html"@),
{
    let mut full = name.to_owned();
    full.append(".html");
    let n = full.as_str().unicode_len();
    let mut file = String::new();
    let mut i: usize = 0;
    while i < n
        invariant
            i <= n,
            n == full@.len(),
            full@ == name@ + ".html"@,
            file@ == replace_slashes(full@.take(i as int)),
        decreases n - i,
    {
        let c = full.as_str().get_char(i);
        assert(full@.take(i + 1).drop_last() =~= full@.take(i as int));
        if c == '/' {
            file.append("---");
        } else {
            let one = full.as_str().substring_char(i, i + 1);
            assert(one@ =~= seq![c]);
            file.append(one);
        }
        i = i + 1;
    }
    assert(full@.take(i as int) =~= full@);
    file
}

/// The name and address of each anime that a browse page links to, where
/// each link has a title and an address.
pub open spec fn anime_entries(links: Seq<(Option<Seq<char>>, Seq<Seq<Seq<char>>>)>) -> Option<
    Seq<(Seq<char>, Seq<char>)>,
> {
    if forall|i: int|
        0 <= i < links.len() ==> {
            &&& (#[trigger] links[i]).1.len() > 0
            &&& links[i].1[0].len() > 0
            &&& links[i].0 is Some
        } {
        Some(
            links.map_values(
                |l: (Option<Seq<char>>, Seq<Seq<Seq<char>>>)| (l.1[0][0], l.0.unwrap()),
            ),
        )
    } else {
        None
    }
}

/// What `anime_links` gives for the selection of a browse page's anime
/// links with their `href` and the texts of the titles inside them:
/// `InvalidSelector` where a selector is invalid; `None` where a link
/// lacks a title, a title text or an address (there the page is not of the
/// shape the download reads).
pub open spec fn anime_links_spec(selection: Option<Seq<(Option<Seq<char>>, Seq<Seq<Seq<char>>>)>>) -> Option<
    Result<Seq<(Seq<char>, Seq<char>)>, ScrapeError>,
> {
    match selection {
        None => Some(Err(ScrapeError::InvalidSelector)),
        Some(links) => match anime_entries(links) {
            None => None,
            Some(e) => Some(Ok(e)),
        },
    }
}

/// The characters of each `(name, address)` pair.
pub open spec fn entries_view(v: Seq<(String, String)>) -> Seq<(Seq<char>, Seq<char>)> {
    v.map_values(|p: (String, String)| (p.0@, p.1@))
}

/// The view of an extraction's outcome.
pub open spec fn links_outcome_view(r: Option<Result<Vec<(String, String)>, ScrapeError>>) -> Option<
    Result<Seq<(Seq<char>, Seq<char>)>, ScrapeError>,
> {
    match r {
        None => None,
        Some(Ok(v)) => Some(Ok(entries_view(v@))),
        Some(Err(e)) => Some(Err(e)),
    }
}

/// The `(name, address)` of each anime link of a browse page, from the
/// selection of the links (see `anime_links_spec`).
pub fn anime_links_from_selection(selection: Option<Vec<(Option<String>, Vec<Vec<String>>)>>) -> (r:
    Option<Result<Vec<(String, String)>, ScrapeError>>)
    ensures
        links_outcome_view(r) == anime_links_spec(opt_nested_view(selection)),
{
    let links = match selection {
        Some(l) => l,
        None => return Some(Err(ScrapeError::InvalidSelector)),
    };
    let ghost lv = nested_seq_view(links@);
    assert(opt_nested_view(selection) == Some(lv));
    let mut out: Vec<(String, String)> = Vec::new();
    let mut i: usize = 0;
    while i < links.len()
        invariant
            i <= links.len(),
            lv == nested_seq_view(links@),
            opt_nested_view(selection) == Some(lv),
            forall|k: int|
                0 <= k < i ==> {
                    &&& (#[trigger] lv[k]).1.len() > 0
                    &&& lv[k].1[0].len() > 0
                    &&& lv[k].0 is Some
                },
            entries_view(out@) =~= lv.take(i as int).map_values(
                |l: (Option<Seq<char>>, Seq<Seq<Seq<char>>>)| (l.1[0][0], l.0.unwrap()),
            ),
        decreases links.len() - i,
    {
        let (href, titles) = &links[i];
        assert(lv[i as int] == nested_view(links@[i as int]));
        if titles.len() == 0 || titles[0].len() == 0 {
            assert(!(lv[i as int].1.len() > 0 && lv[i as int].1[0].len() > 0));
            assert(anime_entries(lv) is None);
            return None;
        }
        let url = match href {
            Some(u) => u.clone(),
            None => {
                assert(lv[i as int].0 is None);
                assert(anime_entries(lv) is None);
                return None;
            },
        };
        let name = titles[0][0].clone();
        let ghost old_out = out@;
        out.push((name, url));
        proof {
            assert(entries_view(out@) =~= entries_view(old_out).push((lv[i as int].1[0][0], lv[i as int].0.unwrap())));
            assert(lv.take(i + 1) =~= lv.take(i as int).push(lv[i as int]));
        }
        i = i + 1;
    }
    assert(lv.take(i as int) =~= lv);
    Some(Ok(out))
}

/// The `(name, address)` of each anime that a browse page links to: the
/// first text of the first `h3.Title` inside each `.link-anime` anchor and
/// the anchor's `href`.
pub fn anime_links(doc: &Html) -> (r: Option<Result<Vec<(String, String)>, ScrapeError>>)
    ensures
        links_outcome_view(r) == anime_links_spec(
            css_select_within(doc.source@, ".link-anime"@, "href"@, "h3.Title"@),
        ),
{
    anime_links_from_selection(select_within(doc.source.as_str(), ".link-anime", "href", "h3.Title"))
}

} // verus!
