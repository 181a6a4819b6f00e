//! Verified core of a paginated book-listing scraper.
//!
//! The library owns the scrape-and-parse pipeline: building paginated
//! listing targets, extracting detail-page links, extracting and
//! post-processing the fields of one book, assembling complete records,
//! and driving the page-by-page traversal as a state machine.  Network
//! I/O, the interactive prompt and the tabular writer live outside the
//! library and talk to it through plain values.

pub mod book;
pub mod export;
pub mod fields;
pub mod html;
pub mod input;
pub mod locators;
pub mod parser;
pub mod pipeline;
pub mod text;
