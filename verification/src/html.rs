//! HTML documents and the CSS selections that the extractions read.
//!
//! Parsing HTML and matching CSS selectors is the work of the `scraper`
//! crate. What a selection yields is a function of the document's source
//! and the selector alone; it is named here (`css_select_texts`,
//! `css_select_attribute`, `css_select_within`) and the extractions are
//! stated over those names.

use vstd::prelude::*;

use crate::error::{Field, ScrapeError};

verus! {

/// An HTML document, held as its source text. Each selection parses it.
pub struct Html {
    pub source: String,
}

impl Html {
    /// Takes the source text of a document.
    pub fn parse_document(document: &str) -> (html: Html)
        ensures
            html.source@ == document@,
    {
        Html { source: document.to_owned() }
    }
}

/// The characters of each string.
pub open spec fn strings_view(v: Seq<String>) -> Seq<Seq<char>> {
    v.map_values(|s: String| s@)
}

/// The characters of each text node of each element.
pub open spec fn texts_view(v: Seq<Vec<String>>) -> Seq<Seq<Seq<char>>> {
    v.map_values(|t: Vec<String>| strings_view(t@))
}

/// The characters of an optional string.
pub open spec fn opt_string_view(o: Option<String>) -> Option<Seq<char>> {
    match o {
        Some(s) => Some(s@),
        None => None,
    }
}

/// The characters of each optional string.
pub open spec fn attributes_view(v: Seq<Option<String>>) -> Seq<Option<Seq<char>>> {
    v.map_values(|o: Option<String>| opt_string_view(o))
}

/// For each element of the parsed `document` that `selector` matches, in
/// the order in which the parser created the elements (document order for
/// a well-formed page), its descendant text nodes in order; `None` where `selector` is
/// not a valid CSS selector.
pub uninterp spec fn css_select_texts(document: Seq<char>, selector: Seq<char>) -> Option<
    Seq<Seq<Seq<char>>>,
>;

/// For each element of the parsed `document` that `selector` matches, in
/// the order in which the parser created the elements (document order for
/// a well-formed page), the value of its attribute named `attribute` if it has one;
/// `None` where `selector` is not a valid CSS selector.
pub uninterp spec fn css_select_attribute(
    document: Seq<char>,
    selector: Seq<char>,
    attribute: Seq<char>,
) -> Option<Seq<Option<Seq<char>>>>;

/// For each element of the parsed `document` that `outer` matches, in the
/// order in which the parser created the elements (document order for a
/// well-formed page), the value of its attribute named `attribute` if it has one, and for each
/// of its descendants that `inner` matches, in order, their text nodes;
/// `None` where either selector is not a valid CSS selector.
pub uninterp spec fn css_select_within(
    document: Seq<char>,
    outer: Seq<char>,
    attribute: Seq<char>,
    inner: Seq<char>,
) -> Option<Seq<(Option<Seq<char>>, Seq<Seq<Seq<char>>>)>>;

/// The view of the result of `select_texts`.
pub open spec fn opt_texts_view(r: Option<Vec<Vec<String>>>) -> Option<Seq<Seq<Seq<char>>>> {
    match r {
        Some(v) => Some(texts_view(v@)),
        None => None,
    }
}

/// The view of the result of `select_attribute`.
pub open spec fn opt_attributes_view(r: Option<Vec<Option<String>>>) -> Option<
    Seq<Option<Seq<char>>>,
> {
    match r {
        Some(v) => Some(attributes_view(v@)),
        None => None,
    }
}

/// The view of one entry of the result of `select_within`.
pub open spec fn nested_view(e: (Option<String>, Vec<Vec<String>>)) -> (
    Option<Seq<char>>,
    Seq<Seq<Seq<char>>>,
) {
    (opt_string_view(e.0), texts_view(e.1@))
}

/// The view of each entry of the result of `select_within`.
pub open spec fn nested_seq_view(v: Seq<(Option<String>, Vec<Vec<String>>)>) -> Seq<
    (Option<Seq<char>>, Seq<Seq<Seq<char>>>),
> {
    v.map_values(|e: (Option<String>, Vec<Vec<String>>)| nested_view(e))
}

/// The view of the result of `select_within`.
pub open spec fn opt_nested_view(r: Option<Vec<(Option<String>, Vec<Vec<String>>)>>) -> Option<
    Seq<(Option<Seq<char>>, Seq<Seq<Seq<char>>>)>,
> {
    match r {
        Some(v) => Some(nested_seq_view(v@)),
        None => None,
    }
}

/// `scraper::Selector::parse`, `scraper::Html::parse_document`,
/// `Html::select` and `ElementRef::text`: the text nodes of each match.
/// Claimed: the result is `css_select_texts` of the source and the
/// selector, `None` exactly where `Selector::parse` fails.
#[verifier::external_body]
pub(crate) fn select_texts(document: &str, selector: &str) -> (r: Option<Vec<Vec<String>>>)
    ensures
        opt_texts_view(r) == css_select_texts(document@, selector@),
{
    let selector = match ::scraper::Selector::parse(selector) {
        Ok(s) => s,
        Err(_) => return None,
    };
    let html = ::scraper::Html::parse_document(document);
    let mut out = Vec::new();
    for element in html.select(&selector) {
        let mut texts = Vec::new();
        for text in element.text() {
            texts.push(text.to_string());
        }
        out.push(texts);
    }
    Some(out)
}

/// `scraper::Selector::parse`, `scraper::Html::parse_document`,
/// `Html::select` and `ElementRef::attr`: one attribute of each match.
/// Claimed: the result is `css_select_attribute` of the source, the
/// selector and the attribute's name, `None` exactly where
/// `Selector::parse` fails.
#[verifier::external_body]
pub(crate) fn select_attribute(document: &str, selector: &str, attribute: &str) -> (r: Option<
    Vec<Option<String>>,
>)
    ensures
        opt_attributes_view(r) == css_select_attribute(document@, selector@, attribute@),
{
    let selector = match ::scraper::Selector::parse(selector) {
        Ok(s) => s,
        Err(_) => return None,
    };
    let html = ::scraper::Html::parse_document(document);
    let mut out = Vec::new();
    for element in html.select(&selector) {
        out.push(match element.attr(attribute) {
            Some(a) => Some(a.to_string()),
            None => None,
        });
    }
    Some(out)
}

/// `scraper::Selector::parse`, `scraper::Html::parse_document`,
/// `Html::select`, `ElementRef::attr`, `ElementRef::select` and
/// `ElementRef::text`: one attribute of each outer match and the text nodes
/// of each inner match inside it. Claimed: the result is
/// `css_select_within` of the source, the two selectors and the
/// attribute's name, `None` exactly where either `Selector::parse` fails.
#[verifier::external_body]
pub(crate) fn select_within(document: &str, outer: &str, attribute: &str, inner: &str) -> (r:
    Option<Vec<(Option<String>, Vec<Vec<String>>)>>)
    ensures
        opt_nested_view(r) == css_select_within(document@, outer@, attribute@, inner@),
{
    let (outer, inner) = match (::scraper::Selector::parse(outer), ::scraper::Selector::parse(inner)) {
        (Ok(o), Ok(i)) => (o, i),
        _ => return None,
    };
    let html = ::scraper::Html::parse_document(document);
    let mut out = Vec::new();
    for element in html.select(&outer) {
        let mut inner_texts = Vec::new();
        for found in element.select(&inner) {
            inner_texts.push(found.text().map(String::from).collect());
        }
        out.push((element.attr(attribute).map(String::from), inner_texts));
    }
    Some(out)
}

/// The first text node of the first selected element, or why there is
/// none.
pub open spec fn first_text_spec(selection: Seq<Seq<Seq<char>>>, field: Field) -> Result<
    Seq<char>,
    ScrapeError,
> {
    if selection.len() == 0 {
        Err(ScrapeError::NoElementMatches(field))
    } else if selection[0].len() == 0 {
        Err(ScrapeError::NoTextNode(field))
    } else {
        Ok(selection[0][0])
    }
}

/// The characters of a string result.
pub open spec fn string_result_view(r: Result<String, ScrapeError>) -> Result<
    Seq<char>,
    ScrapeError,
> {
    match r {
        Ok(s) => Ok(s@),
        Err(e) => Err(e),
    }
}

/// The first text node of the first selected element, as
/// `select(..).next()?.text().next()?` reads it.
pub fn first_text(selection: &Vec<Vec<String>>, field: Field) -> (r: Result<String, ScrapeError>)
    ensures
        string_result_view(r) == first_text_spec(texts_view(selection@), field),
{
    if selection.len() == 0 {
        Err(ScrapeError::NoElementMatches(field))
    } else if selection[0].len() == 0 {
        Err(ScrapeError::NoTextNode(field))
    } else {
        Ok(selection[0][0].clone())
    }
}

/// The first text node of each selected element, where every element has
/// one.
pub open spec fn all_first_texts(selection: Seq<Seq<Seq<char>>>) -> Option<Seq<Seq<char>>> {
    if forall|i: int| 0 <= i < selection.len() ==> #[trigger] selection[i].len() > 0 {
        Some(selection.map_values(|t: Seq<Seq<char>>| t[0]))
    } else {
        None
    }
}

/// The first text node of each selected element; `None` where one of them
/// has no text node.
pub fn first_texts(selection: &Vec<Vec<String>>) -> (r: Option<Vec<String>>)
    ensures
        match r {
            Some(v) => all_first_texts(texts_view(selection@)) == Some(strings_view(v@)),
            None => all_first_texts(texts_view(selection@)) is None,
        },
{
    let ghost sel = texts_view(selection@);
    let mut out: Vec<String> = Vec::new();
    let mut i: usize = 0;
    while i < selection.len()
        invariant
            i <= selection.len(),
            sel == texts_view(selection@),
            forall|k: int| 0 <= k < i ==> #[trigger] sel[k].len() > 0,
            strings_view(out@) =~= sel.take(i as int).map_values(|t: Seq<Seq<char>>| t[0]),
        decreases selection.len() - i,
    {
        if selection[i].len() == 0 {
            assert(sel[i as int].len() == 0);
            return None;
        }
        let ghost old_out = out@;
        out.push(selection[i][0].clone());
        proof {
            assert(sel[i as int][0] == selection@[i as int]@[0]@);
            assert(strings_view(out@) =~= strings_view(old_out).push(sel[i as int][0]));
            assert(sel.take(i + 1) =~= sel.take(i as int).push(sel[i as int]));
        }
        i = i + 1;
    }
    assert(sel.take(i as int) =~= sel);
    Some(out)
}

/// The values of all selected attributes, where every element has the
/// attribute.
pub open spec fn all_present(selection: Seq<Option<Seq<char>>>) -> Option<Seq<Seq<char>>> {
    if forall|i: int| 0 <= i < selection.len() ==> #[trigger] selection[i] is Some {
        Some(selection.map_values(|a: Option<Seq<char>>| a.unwrap()))
    } else {
        None
    }
}

/// The values of the selected attributes that are there, in order.
pub open spec fn present_values(selection: Seq<Option<Seq<char>>>) -> Seq<Seq<char>>
    decreases selection.len(),
{
    if selection.len() == 0 {
        seq![]
    } else {
        let r = present_values(selection.drop_last());
        match selection.last() {
            Some(v) => r.push(v),
            None => r,
        }
    }
}

/// The values of the selected attributes up to the first element without
/// one.
pub open spec fn leading_present(selection: Seq<Option<Seq<char>>>) -> Seq<Seq<char>>
    decreases selection.len(),
{
    if selection.len() == 0 {
        seq![]
    } else {
        match selection[0] {
            Some(v) => seq![v] + leading_present(selection.drop_first()),
            None => seq![],
        }
    }
}

/// The values of all selected attributes, as `attr(..).unwrap()` on each
/// element reads them; `None` where an element lacks the attribute.
pub fn all_attributes(selection: &Vec<Option<String>>) -> (r: Option<Vec<String>>)
    ensures
        match r {
            Some(v) => all_present(attributes_view(selection@)) == Some(strings_view(v@)),
            None => all_present(attributes_view(selection@)) is None,
        },
{
    let ghost sel = attributes_view(selection@);
    let mut out: Vec<String> = Vec::new();
    let mut i: usize = 0;
    while i < selection.len()
        invariant
            i <= selection.len(),
            sel == attributes_view(selection@),
            forall|k: int| 0 <= k < i ==> #[trigger] sel[k] is Some,
            strings_view(out@) =~= sel.take(i as int).map_values(|a: Option<Seq<char>>| a.unwrap()),
        decreases selection.len() - i,
    {
        match &selection[i] {
            Some(v) => {
                let ghost old_out = out@;
                out.push(v.clone());
                proof {
                    assert(strings_view(out@) =~= strings_view(old_out).push(sel[i as int].unwrap()));
                    assert(sel.take(i + 1) =~= sel.take(i as int).push(sel[i as int]));
                }
            },
            None => {
                assert(sel[i as int] is None);
                return None;
            },
        }
        i = i + 1;
    }
    assert(sel.take(i as int) =~= sel);
    Some(out)
}

/// The values of the selected attributes that are there, in order, as
/// `filter_map(|el| el.attr(..))` reads them.
pub fn present_attributes(selection: &Vec<Option<String>>) -> (r: Vec<String>)
    ensures
        strings_view(r@) == present_values(attributes_view(selection@)),
{
    let ghost sel = attributes_view(selection@);
    let mut out: Vec<String> = Vec::new();
    let mut i: usize = 0;
    while i < selection.len()
        invariant
            i <= selection.len(),
            sel == attributes_view(selection@),
            strings_view(out@) =~= present_values(sel.take(i as int)),
        decreases selection.len() - i,
    {
        assert(sel.take(i + 1).drop_last() =~= sel.take(i as int));
        match &selection[i] {
            Some(v) => {
                let ghost old_out = out@;
                out.push(v.clone());
                proof {
                    assert(strings_view(out@) =~= strings_view(old_out).push(sel[i as int].unwrap()));
                }
            },
            None => {},
        }
        i = i + 1;
    }
    assert(sel.take(i as int) =~= sel);
    out
}

/// The values of the selected attributes up to the first element without
/// one, and whether some element lacks it.
pub fn leading_attributes(selection: &Vec<Option<String>>) -> (r: (Vec<String>, bool))
    ensures
        strings_view(r.0@) == leading_present(attributes_view(selection@)),
        r.1 == (all_present(attributes_view(selection@)) is None),
{
    let ghost sel = attributes_view(selection@);
    let mut out: Vec<String> = Vec::new();
    let mut i: usize = 0;
    assert(sel.skip(0) =~= sel);
    assert(strings_view(out@) + leading_present(sel) =~= leading_present(sel));
    while i < selection.len()
        invariant
            i <= selection.len(),
            sel == attributes_view(selection@),
            forall|k: int| 0 <= k < i ==> #[trigger] sel[k] is Some,
            leading_present(sel) =~= strings_view(out@) + leading_present(sel.skip(i as int)),
        decreases selection.len() - i,
    {
        assert(sel.skip(i as int).drop_first() =~= sel.skip(i + 1));
        match &selection[i] {
            Some(v) => {
                let ghost old_out = out@;
                out.push(v.clone());
                proof {
                    assert(strings_view(out@) =~= strings_view(old_out).push(sel[i as int].unwrap()));
                }
            },
            None => {
                assert(sel[i as int] is None);
                assert(strings_view(out@) + seq![] =~= strings_view(out@));
                return (out, true);
            },
        }
        i = i + 1;
    }
    assert(sel.skip(i as int) =~= Seq::<Option<Seq<char>>>::empty());
    assert(strings_view(out@) + seq![] =~= strings_view(out@));
    (out, false)
}

} // verus!
