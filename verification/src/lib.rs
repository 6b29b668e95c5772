//! Article extraction from raw HTML.
//!
//! A page is parsed once into a [`document::Document`]. The title resolver
//! and the content resolver then walk ordered catalogs of structural
//! locators and pick, by fixed priority, the heading and the region of the
//! page that the caller hands to the Markdown converter.

pub mod text;
pub mod document;
pub mod locator;
pub mod title;
pub mod content;
pub mod article;
pub mod explain;
pub mod laws;
