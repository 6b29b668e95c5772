//! The catalogs of structural locators, in priority order.

use vstd::prelude::*;
use vstd::string::StringExecFns;

verus! {

/// Where a title is looked for: a selector, and what is read from the
/// element it matches.
#[derive(Debug, Clone, PartialEq, Eq)]
pub struct TitleLocator {
    /// The selector.
    pub query: String,
    /// `None` reads the element's text; `Some(name)` reads that attribute.
    pub attribute: Option<String>,
}

/// A [`TitleLocator`] with its strings taken as character sequences.
pub struct TitleLocatorView {
    pub query: Seq<char>,
    pub attribute: Option<Seq<char>>,
}

impl View for TitleLocator {
    type V = TitleLocatorView;

    open spec fn view(&self) -> TitleLocatorView {
        TitleLocatorView {
            query: self.query@,
            attribute: match self.attribute {
                Some(name) => Some(name@),
                None => None,
            },
        }
    }
}

/// The views of a catalog of title locators, in order.
pub open spec fn title_catalog_view(locators: Seq<TitleLocator>) -> Seq<TitleLocatorView> {
    Seq::new(locators.len(), |i: int| locators[i]@)
}

/// The views of a catalog of region selectors, in order.
pub open spec fn region_catalog_view(locators: Seq<String>) -> Seq<Seq<char>> {
    Seq::new(locators.len(), |i: int| locators[i]@)
}

/// A region must hold more than this many characters of markup to be taken
/// for the article.
pub const DEFAULT_MIN_CONTENT_LENGTH: usize = 200;

/// The selector of the region that is converted when no candidate qualifies.
pub open spec fn body_query() -> Seq<char> {
    "body"@
}

/// A locator that reads the text of the element matched by `query`.
pub open spec fn by_text(query: Seq<char>) -> TitleLocatorView {
    TitleLocatorView { query, attribute: None }
}

/// A locator that reads attribute `name` of the element matched by `query`.
pub open spec fn by_attribute(query: Seq<char>, name: Seq<char>) -> TitleLocatorView {
    TitleLocatorView { query, attribute: Some(name) }
}

/// The title locators: a primary heading, a heading inside an article, the
/// two title classes, the document title, and last the social-metadata
/// title, which is read from an attribute.
pub open spec fn default_title_catalog() -> Seq<TitleLocatorView> {
    seq![
        by_text("h1"@),
        by_text("article h1"@),
        by_text(".article-title"@),
        by_text(".post-title"@),
        by_text("title"@),
        by_attribute("meta[property='og:title']"@, "content"@),
    ]
}

/// The region selectors: an article, an article inside the main landmark,
/// the content classes, the main landmark, and last the generic content
/// class.
pub open spec fn default_region_catalog() -> Seq<Seq<char>> {
    seq![
        "article"@,
        "main article"@,
        ".post-content"@,
        ".article-content"@,
        ".markdown-body"@,
        ".entry-content"@,
        "main"@,
        ".content"@,
    ]
}

impl TitleLocator {
    /// A locator that reads the matched element's text.
    pub fn text(query: &str) -> (l: TitleLocator)
        ensures
            l@ == by_text(query@),
    {
        TitleLocator { query: String::from_str(query), attribute: None }
    }

    /// A locator that reads attribute `name` of the matched element.
    pub fn attribute(query: &str, name: &str) -> (l: TitleLocator)
        ensures
            l@ == by_attribute(query@, name@),
    {
        TitleLocator { query: String::from_str(query), attribute: Some(String::from_str(name)) }
    }
}

/// The title locators in priority order.
pub fn default_title_locators() -> (v: Vec<TitleLocator>)
    ensures
        title_catalog_view(v@) == default_title_catalog(),
{
    let mut v: Vec<TitleLocator> = Vec::new();
    v.push(TitleLocator::text("h1"));
    v.push(TitleLocator::text("article h1"));
    v.push(TitleLocator::text(".article-title"));
    v.push(TitleLocator::text(".post-title"));
    v.push(TitleLocator::text("title"));
    v.push(TitleLocator::attribute("meta[property='og:title']", "content"));
    assert(title_catalog_view(v@) =~= default_title_catalog());
    v
}

/// The region selectors in priority order.
pub fn default_region_locators() -> (v: Vec<String>)
    ensures
        region_catalog_view(v@) == default_region_catalog(),
{
    let mut v: Vec<String> = Vec::new();
    v.push(String::from_str("article"));
    v.push(String::from_str("main article"));
    v.push(String::from_str(".post-content"));
    v.push(String::from_str(".article-content"));
    v.push(String::from_str(".markdown-body"));
    v.push(String::from_str(".entry-content"));
    v.push(String::from_str("main"));
    v.push(String::from_str(".content"));
    assert(region_catalog_view(v@) =~= default_region_catalog());
    v
}

} // verus!
