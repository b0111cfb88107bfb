//! The command line: scrape the site, or render what was scraped.

use vstd::prelude::*;

verus! {

/// The command line's options.
pub struct Opts {
    pub subcmd: SubCmd,
}

/// What to do.
pub enum SubCmd {
    /// Scrape the site into the database.
    Scrape,
    /// Render what was scraped.
    Render(RenderOpts),
}

/// Where to render to.
pub struct RenderOpts {
    /// The output path.
    pub out: String,
}

} // verus!
