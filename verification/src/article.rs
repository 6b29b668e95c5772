//! One extraction: a page in, its title and the markup of its body out,
//! and the article that the two make once the body is converted.

use vstd::prelude::*;
use crate::content::{chosen_markup, extract_content};
use crate::document::Document;
use crate::locator::{default_region_catalog, default_title_catalog, DEFAULT_MIN_CONTENT_LENGTH};
use crate::title::{extract_title, resolved_title, title_or};

verus! {

/// The title of an article and its body as Markdown.
#[derive(Debug, Clone, PartialEq, Eq)]
pub struct ArticleResult {
    pub title: String,
    pub content: String,
}

/// An [`ArticleResult`] with its strings taken as character sequences.
pub struct ArticleView {
    pub title: Seq<char>,
    pub content: Seq<char>,
}

impl View for ArticleResult {
    type V = ArticleView;

    open spec fn view(&self) -> ArticleView {
        ArticleView { title: self.title@, content: self.content@ }
    }
}

/// What was picked from a page: its title, and the markup of its body that
/// is still to be converted to Markdown.
#[derive(Debug, Clone, PartialEq, Eq)]
pub struct Selection {
    pub title: String,
    pub markup: String,
}

/// A [`Selection`] with its strings taken as character sequences.
pub struct SelectionView {
    pub title: Seq<char>,
    pub markup: Seq<char>,
}

impl View for Selection {
    type V = SelectionView;

    open spec fn view(&self) -> SelectionView {
        SelectionView { title: self.title@, markup: self.markup@ }
    }
}

/// What is picked from the page `html`, titled `fallback` where the page
/// offers no title.
pub open spec fn selection_of(html: Seq<char>, fallback: Seq<char>) -> SelectionView {
    SelectionView {
        title: title_or(resolved_title(html, default_title_catalog()), fallback),
        markup: chosen_markup(html, default_region_catalog(), DEFAULT_MIN_CONTENT_LENGTH as nat),
    }
}

/// Picks the title and the body of a fetched page. `fallback_title` is what
/// the article is called where the page offers no title: the address it was
/// fetched from. With a non-empty fallback the title is never empty.
pub fn select_article(html: &str, fallback_title: &str) -> (selection: Selection)
    ensures
        selection@ == selection_of(html@, fallback_title@),
        fallback_title@.len() > 0 ==> selection.title@.len() > 0,
{
    let document = Document::parse(html);
    let title = match extract_title(&document) {
        Some(title) => title,
        None => fallback_title.to_owned(),
    };
    let markup = extract_content(&document);
    Selection { title, markup }
}

impl Selection {
    /// The article that the selection makes once its markup has been
    /// converted: the selected title over `markdown`.
    pub fn into_article(self, markdown: String) -> (article: ArticleResult)
        ensures
            article.title@ == self.title@,
            article.content@ == markdown@,
    {
        ArticleResult { title: self.title, content: markdown }
    }
}

} // verus!
