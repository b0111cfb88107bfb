//! Scraper for an anime streaming site: the page logic (what is extracted
//! from the HTML, which pages changed since the last visit, how the URLs and
//! file names are built) with its contracts.

pub mod anime;
pub mod checksum;
pub mod downloader;
pub mod error;
pub mod fetchers;
pub mod html;
pub mod models;
pub mod opts;
pub mod page_checksum;
pub mod pages;
pub mod scraper;
pub mod text;
pub mod urls;
