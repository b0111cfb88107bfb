//! The ways in which extracting data from a page can fail.

use vstd::prelude::*;

verus! {

/// The piece of a page that an extraction was looking for.
#[derive(Debug, Clone, Copy, PartialEq, Eq, Structural)]
pub enum Field {
    Title,
    Synopsis,
    Status,
    ReleaseDateAndKind,
    Kind,
    Genres,
    LastPage,
    AnimeLink,
    EpisodeTitle,
}

/// Why an extraction failed.
#[derive(Debug, Clone, Copy, PartialEq, Eq, Structural)]
pub enum ScrapeError {
    /// A CSS selector could not be parsed.
    InvalidSelector,
    /// No element of the page matches the selector for the field.
    NoElementMatches(Field),
    /// The element found for the field holds no text node.
    NoTextNode(Field),
    /// The element found for the field lacks the attribute that holds it.
    MissingAttribute(Field),
    /// A URL could not be parsed or built.
    InvalidUrl,
    /// Percent-decoded bytes are not well-formed UTF-8.
    InvalidUtf8,
    /// A page number is not a decimal `u32`.
    InvalidPageNumber,
}

} // verus!
