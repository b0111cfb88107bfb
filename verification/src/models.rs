//! The records that the scraper stores, and their extraction from pages.

pub mod anime;
pub mod anime_url;
pub mod episode;
pub mod episode_url;
pub mod page_checksum;
pub mod server;
