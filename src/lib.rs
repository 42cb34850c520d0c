//! Library Genesis search-result resolution: parsing result rows, matching
//! titles, deriving direct download links and deciding mirror retries.

/// Text helpers: decimal rendering and parsing, trimming, case folding.
pub mod text;
/// Group ids and MD5 extraction.
pub mod util;
/// Book records and their download links.
pub mod book;
/// Result rows, title matching and record assembly.
pub mod processor;
/// Search errors and the mirror retry policy.
pub mod scraper;
/// Download requests, file names and download errors.
pub mod downloader;
