//! The parsed page and the structural queries made against it.

use vstd::prelude::*;

verus! {

#[verifier::external_type_specification]
#[verifier::external_body]
pub struct ExHtml(scraper::Html);

/// `scraper::Html::parse_document` builds the element tree of a page. It
/// accepts every string; nothing is claimed of the tree it returns.
pub assume_specification[ scraper::Html::parse_document ](document: &str) -> (tree: scraper::Html);

/// What one structural query found in a document.
#[derive(Debug, Clone, PartialEq, Eq)]
pub enum Probe {
    /// The query is not a selector that the engine can compile.
    Invalid,
    /// The query compiled and no element matches it.
    NoMatch,
    /// An element matches, and it lacks the attribute that was asked for.
    NoAttribute,
    /// The value read from the first matching element.
    Found(String),
}

/// A [`Probe`] with its string taken as a character sequence.
pub enum ProbeView {
    Invalid,
    NoMatch,
    NoAttribute,
    Found(Seq<char>),
}

impl View for Probe {
    type V = ProbeView;

    open spec fn view(&self) -> ProbeView {
        match self {
            Probe::Invalid => ProbeView::Invalid,
            Probe::NoMatch => ProbeView::NoMatch,
            Probe::NoAttribute => ProbeView::NoAttribute,
            Probe::Found(s) => ProbeView::Found(s@),
        }
    }
}

/// The text of the first element that `query` matches in the page `source`:
/// all of its descendant text nodes, joined in document order.
pub uninterp spec fn first_text(source: Seq<char>, query: Seq<char>) -> ProbeView;

/// The value of attribute `name` on the first element that `query` matches
/// in the page `source`.
pub uninterp spec fn first_attribute(
    source: Seq<char>,
    query: Seq<char>,
    name: Seq<char>,
) -> ProbeView;

/// The serialized children of the first element that `query` matches in the
/// page `source`, without the element's own tag.
pub uninterp spec fn first_markup(source: Seq<char>, query: Seq<char>) -> ProbeView;

/// A page: its raw text and the element tree parsed from it.
///
/// [`Document::parse`] is the only constructor, so the tree is always the
/// parse of the raw text, and a document is viewed as that text.
pub struct Document {
    source: String,
    tree: scraper::Html,
}

impl View for Document {
    type V = Seq<char>;

    closed spec fn view(&self) -> Seq<char> {
        self.source@
    }
}

impl Document {
    /// Parses `html`. Every string is accepted: the parser repairs what is
    /// malformed.
    pub fn parse(html: &str) -> (doc: Document)
        ensures
            doc@ == html@,
    {
        Document { source: html.to_owned(), tree: scraper::Html::parse_document(html) }
    }

    /// The raw text that the document was parsed from.
    pub fn source(&self) -> (s: &str)
        ensures
            s@ == self@,
    {
        self.source.as_str()
    }

    /// Compiles `query` with `scraper::Selector::parse`, takes the first item
    /// of `scraper::Html::select` and joins what `ElementRef::text` yields.
    /// The contract claims that the outcome depends on the page's text and
    /// the query alone, and names it [`first_text`].
    #[verifier::external_body]
    pub(crate) fn probe_text(&self, query: &str) -> (p: Probe)
        ensures
            p@ == first_text(self@, query@),
    {
        match scraper::Selector::parse(query) {
            Err(_) => Probe::Invalid,
            Ok(selector) => match self.tree.select(&selector).next() {
                None => Probe::NoMatch,
                Some(element) => Probe::Found(element.text().collect::<String>()),
            },
        }
    }

    /// Compiles `query` with `scraper::Selector::parse`, takes the first item
    /// of `scraper::Html::select` and reads `name` with `Element::attr`.
    /// The contract claims that the outcome depends on the page's text, the
    /// query and the attribute's name alone, and names it [`first_attribute`].
    #[verifier::external_body]
    pub(crate) fn probe_attribute(&self, query: &str, name: &str) -> (p: Probe)
        ensures
            p@ == first_attribute(self@, query@, name@),
    {
        match scraper::Selector::parse(query) {
            Err(_) => Probe::Invalid,
            Ok(selector) => match self.tree.select(&selector).next() {
                None => Probe::NoMatch,
                Some(element) => match element.value().attr(name) {
                    None => Probe::NoAttribute,
                    Some(value) => Probe::Found(value.to_string()),
                },
            },
        }
    }

    /// Compiles `query` with `scraper::Selector::parse`, takes the first item
    /// of `scraper::Html::select` and serializes it with
    /// `ElementRef::inner_html`. The contract claims that the outcome depends
    /// on the page's text and the query alone, and names it [`first_markup`].
    #[verifier::external_body]
    pub(crate) fn probe_markup(&self, query: &str) -> (p: Probe)
        ensures
            p@ == first_markup(self@, query@),
    {
        match scraper::Selector::parse(query) {
            Err(_) => Probe::Invalid,
            Ok(selector) => match self.tree.select(&selector).next() {
                None => Probe::NoMatch,
                Some(element) => Probe::Found(element.inner_html()),
            },
        }
    }
}

} // verus!
