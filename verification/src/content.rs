//! The content resolver: the first region, in priority order, that holds
//! enough markup to be the article, and the fallbacks where none does. It
//! decides what is converted to Markdown; the conversion is the caller's.

use vstd::prelude::*;
use vstd::string::StrSliceExecFns;
use crate::document::{Document, Probe, ProbeView, first_markup};
use crate::locator::{
    body_query, default_region_catalog, default_region_locators, region_catalog_view,
    DEFAULT_MIN_CONTENT_LENGTH,
};

verus! {

/// The markup of a region that qualifies: one that was found and holds more
/// than `min_length` characters.
pub open spec fn region_candidate(probe: ProbeView, min_length: nat) -> Option<Seq<char>> {
    match probe {
        ProbeView::Found(markup) => if markup.len() > min_length {
            Some(markup)
        } else {
            None
        },
        _ => None,
    }
}

/// The markup of the first qualifying region at or after position `from`.
pub open spec fn accepted_region_from(
    source: Seq<char>,
    locators: Seq<Seq<char>>,
    min_length: nat,
    from: int,
) -> Option<Seq<char>>
    decreases locators.len() - from,
{
    if from < 0 || from >= locators.len() {
        None
    } else {
        match region_candidate(first_markup(source, locators[from]), min_length) {
            Some(markup) => Some(markup),
            None => accepted_region_from(source, locators, min_length, from + 1),
        }
    }
}

/// The markup of the first qualifying region of the page `source`.
pub open spec fn accepted_region(
    source: Seq<char>,
    locators: Seq<Seq<char>>,
    min_length: nat,
) -> Option<Seq<char>> {
    accepted_region_from(source, locators, min_length, 0)
}

/// What is converted when no region qualifies: the inside of the body,
/// whatever its length, or the raw page where there is no body.
pub open spec fn fallback_markup(body: ProbeView, source: Seq<char>) -> Seq<char> {
    match body {
        ProbeView::Found(markup) => markup,
        _ => source,
    }
}

/// The markup that is to be converted: that of the first qualifying region,
/// or the fallback where no region qualifies.
pub open spec fn chosen_markup(
    source: Seq<char>,
    locators: Seq<Seq<char>>,
    min_length: nat,
) -> Seq<char> {
    match accepted_region(source, locators, min_length) {
        Some(markup) => markup,
        None => fallback_markup(first_markup(source, body_query()), source),
    }
}

/// Decides whether one probed region qualifies, and hands its markup on if
/// it does. Length is counted in characters.
pub fn region_from_probe(probe: Probe, min_length: usize) -> (markup: Option<String>)
    ensures
        match markup {
            Some(m) => region_candidate(probe@, min_length as nat) == Some(m@),
            None => region_candidate(probe@, min_length as nat).is_none(),
        },
{
    match probe {
        Probe::Found(markup) => {
            if markup.as_str().unicode_len() > min_length {
                Some(markup)
            } else {
                None
            }
        },
        _ => None,
    }
}

/// Picks what to convert when no region qualified.
pub fn fallback_from_probe(body: Probe, source: &str) -> (markup: String)
    ensures
        markup@ == fallback_markup(body@, source@),
{
    match body {
        Probe::Found(markup) => markup,
        _ => source.to_owned(),
    }
}

/// Walks the region selectors in order and stops at the first region that
/// qualifies.
pub fn select_region(document: &Document, locators: &Vec<String>, min_length: usize) -> (markup:
    Option<String>)
    ensures
        match markup {
            Some(m) => accepted_region(
                document@,
                region_catalog_view(locators@),
                min_length as nat,
            ) == Some(m@),
            None => accepted_region(
                document@,
                region_catalog_view(locators@),
                min_length as nat,
            ).is_none(),
        },
{
    let ghost catalog = region_catalog_view(locators@);
    let mut i: usize = 0;
    while i < locators.len()
        invariant
            i <= locators.len(),
            catalog == region_catalog_view(locators@),
            accepted_region(document@, catalog, min_length as nat) == accepted_region_from(
                document@,
                catalog,
                min_length as nat,
                i as int,
            ),
        decreases locators.len() - i,
    {
        let probe = document.probe_markup(locators[i].as_str());
        let candidate = region_from_probe(probe, min_length);
        if candidate.is_some() {
            return candidate;
        }
        i += 1;
    }
    None
}

/// Resolves the content under a caller-supplied catalog and threshold, as
/// the markup that is to be converted: that of the first qualifying region,
/// else the inside of the body, else the raw page.
pub fn extract_content_with(document: &Document, locators: &Vec<String>, min_length: usize) -> (
    markup: String
)
    ensures
        markup@ == chosen_markup(document@, region_catalog_view(locators@), min_length as nat),
{
    match select_region(document, locators, min_length) {
        Some(markup) => markup,
        None => fallback_from_probe(document.probe_markup("body"), document.source()),
    }
}

/// Resolves the content under the default catalog and threshold.
pub fn extract_content(document: &Document) -> (markup: String)
    ensures
        markup@ == chosen_markup(
            document@,
            default_region_catalog(),
            DEFAULT_MIN_CONTENT_LENGTH as nat,
        ),
{
    let locators = default_region_locators();
    extract_content_with(document, &locators, DEFAULT_MIN_CONTENT_LENGTH)
}

} // verus!
