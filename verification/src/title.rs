//! The title resolver: the first locator, in priority order, that yields a
//! non-empty trimmed string.

use vstd::prelude::*;
use crate::document::{Document, Probe, ProbeView, first_text, first_attribute};
use crate::locator::{TitleLocator, TitleLocatorView, title_catalog_view, default_title_catalog, default_title_locators};
use crate::text::{trim, trimmed};

verus! {

/// The title that one probe offers: its value trimmed, unless nothing was
/// found or nothing but whitespace.
pub open spec fn title_candidate(probe: ProbeView) -> Option<Seq<char>> {
    match probe {
        ProbeView::Found(value) => if trimmed(value).len() > 0 {
            Some(trimmed(value))
        } else {
            None
        },
        _ => None,
    }
}

/// What `locator` finds in the page `source`.
pub open spec fn title_probe(source: Seq<char>, locator: TitleLocatorView) -> ProbeView {
    match locator.attribute {
        Some(name) => first_attribute(source, locator.query, name),
        None => first_text(source, locator.query),
    }
}

/// The title offered by the first locator at or after position `from` that
/// offers one.
pub open spec fn resolved_title_from(
    source: Seq<char>,
    locators: Seq<TitleLocatorView>,
    from: int,
) -> Option<Seq<char>>
    decreases locators.len() - from,
{
    if from < 0 || from >= locators.len() {
        None
    } else {
        match title_candidate(title_probe(source, locators[from])) {
            Some(title) => Some(title),
            None => resolved_title_from(source, locators, from + 1),
        }
    }
}

/// The title of the page `source` under the catalog `locators`.
pub open spec fn resolved_title(source: Seq<char>, locators: Seq<TitleLocatorView>) -> Option<
    Seq<char>,
> {
    resolved_title_from(source, locators, 0)
}

/// The resolved title, or `fallback` where no locator offers one.
pub open spec fn title_or(title: Option<Seq<char>>, fallback: Seq<char>) -> Seq<char> {
    match title {
        Some(t) => t,
        None => fallback,
    }
}

/// Decides what one probe contributes: the trimmed value where it is not
/// empty, and nothing for an invalid query, a query without a match, a
/// missing attribute or a blank value.
pub fn title_from_probe(probe: &Probe) -> (title: Option<String>)
    ensures
        match title {
            Some(t) => title_candidate(probe@) == Some(t@) && t@.len() > 0,
            None => title_candidate(probe@).is_none(),
        },
{
    match probe {
        Probe::Found(value) => {
            let t = trim(value.as_str());
            if t.as_str().is_empty() {
                None
            } else {
                Some(t)
            }
        },
        _ => None,
    }
}

/// Runs one locator against the document.
pub fn probe_title(document: &Document, locator: &TitleLocator) -> (probe: Probe)
    ensures
        probe@ == title_probe(document@, locator@),
{
    match &locator.attribute {
        Some(name) => document.probe_attribute(locator.query.as_str(), name.as_str()),
        None => document.probe_text(locator.query.as_str()),
    }
}

/// Resolves the title under a caller-supplied catalog: locators are tried in
/// order and the walk stops at the first that offers a title.
pub fn extract_title_with(document: &Document, locators: &Vec<TitleLocator>) -> (title: Option<
    String,
>)
    ensures
        match title {
            Some(t) => resolved_title(document@, title_catalog_view(locators@)) == Some(t@)
                && t@.len() > 0,
            None => resolved_title(document@, title_catalog_view(locators@)).is_none(),
        },
{
    let ghost catalog = title_catalog_view(locators@);
    let mut i: usize = 0;
    while i < locators.len()
        invariant
            i <= locators.len(),
            catalog == title_catalog_view(locators@),
            resolved_title(document@, catalog) == resolved_title_from(document@, catalog, i as int),
        decreases locators.len() - i,
    {
        let probe = probe_title(document, &locators[i]);
        let candidate = title_from_probe(&probe);
        if candidate.is_some() {
            return candidate;
        }
        i += 1;
    }
    None
}

/// Resolves the title under the default catalog.
pub fn extract_title(document: &Document) -> (title: Option<String>)
    ensures
        match title {
            Some(t) => resolved_title(document@, default_title_catalog()) == Some(t@)
                && t@.len() > 0,
            None => resolved_title(document@, default_title_catalog()).is_none(),
        },
{
    let locators = default_title_locators();
    extract_title_with(document, &locators)
}

/// A resolved title is never empty: every locator's offer is a trimmed
/// string with at least one character.
pub proof fn title_is_not_empty(source: Seq<char>, locators: Seq<TitleLocatorView>, from: int)
    ensures
        match resolved_title_from(source, locators, from) {
            Some(title) => title.len() > 0,
            None => true,
        },
    decreases locators.len() - from,
{
    if 0 <= from && from < locators.len() {
        if title_candidate(title_probe(source, locators[from])).is_none() {
            title_is_not_empty(source, locators, from + 1);
        }
    }
}

} // verus!
