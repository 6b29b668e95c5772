//! What holds of every extraction, proved from the resolvers' definitions.

use vstd::prelude::*;
use crate::article::{selection_of, SelectionView};
use crate::content::{
    accepted_region, accepted_region_from, chosen_markup, fallback_markup, region_candidate,
};
use crate::document::{first_markup, first_text, ProbeView};
use crate::locator::{
    body_query, default_region_catalog, default_title_catalog, TitleLocatorView,
    DEFAULT_MIN_CONTENT_LENGTH,
};
use crate::text::trimmed;
use crate::title::{
    resolved_title, resolved_title_from, title_candidate, title_is_not_empty, title_or,
    title_probe,
};

verus! {

/// Priority of the primary heading: where the page has one whose text is not
/// blank, the title is that text, trimmed, whatever the document title and
/// the metadata say.
pub proof fn primary_heading_is_the_title(
    source: Seq<char>,
    fallback: Seq<char>,
    heading: Seq<char>,
)
    requires
        first_text(source, "h1"@) == ProbeView::Found(heading),
        trimmed(heading).len() > 0,
    ensures
        selection_of(source, fallback).title == trimmed(heading),
{
    assert(default_title_catalog()[0].query == "h1"@);
}

/// Priority in any catalog: an earlier locator that offers a title hides
/// every later one.
pub proof fn earliest_offer_is_the_title(
    source: Seq<char>,
    locators: Seq<TitleLocatorView>,
    at: int,
)
    requires
        0 <= at < locators.len(),
        title_candidate(title_probe(source, locators[at])).is_some(),
        forall|j: int| 0 <= j < at ==> title_candidate(#[trigger] title_probe(source, locators[j])).is_none(),
    ensures
        resolved_title(source, locators) == title_candidate(title_probe(source, locators[at])),
{
    earliest_offer_from(source, locators, at, 0);
}

proof fn earliest_offer_from(
    source: Seq<char>,
    locators: Seq<TitleLocatorView>,
    at: int,
    from: int,
)
    requires
        0 <= from <= at < locators.len(),
        title_candidate(title_probe(source, locators[at])).is_some(),
        forall|j: int| 0 <= j < at ==> title_candidate(#[trigger] title_probe(source, locators[j])).is_none(),
    ensures
        resolved_title_from(source, locators, from) == title_candidate(
            title_probe(source, locators[at]),
        ),
    decreases at - from,
{
    if from < at {
        earliest_offer_from(source, locators, at, from + 1);
    }
}

/// Where no locator offers a title, the title is the caller's fallback.
pub proof fn fallback_is_the_title_when_nothing_is_offered(
    source: Seq<char>,
    locators: Seq<TitleLocatorView>,
    fallback: Seq<char>,
)
    requires
        forall|j: int| 0 <= j < locators.len() ==> title_candidate(#[trigger] title_probe(source, locators[j])).is_none(),
    ensures
        resolved_title(source, locators).is_none(),
        title_or(resolved_title(source, locators), fallback) == fallback,
{
    nothing_offered_from(source, locators, 0);
}

proof fn nothing_offered_from(source: Seq<char>, locators: Seq<TitleLocatorView>, from: int)
    requires
        0 <= from,
        forall|j: int| 0 <= j < locators.len() ==> title_candidate(#[trigger] title_probe(source, locators[j])).is_none(),
    ensures
        resolved_title_from(source, locators, from).is_none(),
    decreases locators.len() - from,
{
    if from < locators.len() {
        nothing_offered_from(source, locators, from + 1);
    }
}

/// Where no title locator matches anything in the page, the article carries
/// the caller's fallback as its title.
pub proof fn unmatched_page_takes_the_fallback_title(source: Seq<char>, fallback: Seq<char>)
    requires
        forall|j: int|
            0 <= j < default_title_catalog().len() ==> !(#[trigger] title_probe(
                source,
                default_title_catalog()[j],
            ) is Found),
    ensures
        selection_of(source, fallback).title == fallback,
{
    fallback_is_the_title_when_nothing_is_offered(source, default_title_catalog(), fallback);
}

/// With a fallback that is not empty, the title of an article is never
/// empty.
pub proof fn article_title_is_not_empty(source: Seq<char>, fallback: Seq<char>)
    requires
        fallback.len() > 0,
    ensures
        selection_of(source, fallback).title.len() > 0,
{
    title_is_not_empty(source, default_title_catalog(), 0);
}

/// Priority of the article element: where its inner markup has at least 201
/// characters, that markup is what is converted, whatever the later
/// selectors and the body hold.
pub proof fn long_article_is_the_content(source: Seq<char>, fallback: Seq<char>, markup: Seq<char>)
    requires
        first_markup(source, "article"@) == ProbeView::Found(markup),
        markup.len() >= 201,
    ensures
        selection_of(source, fallback).markup == markup,
{
    assert(default_region_catalog()[0] == "article"@);
}

/// Priority in any catalog: the earliest region that qualifies is the one
/// converted, whatever the later selectors find and however large it is.
pub proof fn earliest_qualifying_region_is_converted(
    source: Seq<char>,
    locators: Seq<Seq<char>>,
    min_length: nat,
    at: int,
    markup: Seq<char>,
)
    requires
        0 <= at < locators.len(),
        first_markup(source, locators[at]) == ProbeView::Found(markup),
        markup.len() > min_length,
        forall|j: int|
            0 <= j < at ==> region_candidate(
                #[trigger] first_markup(source, locators[j]),
                min_length,
            ).is_none(),
    ensures
        accepted_region(source, locators, min_length) == Some(markup),
        chosen_markup(source, locators, min_length) == markup,
{
    earliest_region_from(source, locators, min_length, at, markup, 0);
}

proof fn earliest_region_from(
    source: Seq<char>,
    locators: Seq<Seq<char>>,
    min_length: nat,
    at: int,
    markup: Seq<char>,
    from: int,
)
    requires
        0 <= from <= at < locators.len(),
        first_markup(source, locators[at]) == ProbeView::Found(markup),
        markup.len() > min_length,
        forall|j: int|
            0 <= j < at ==> region_candidate(
                #[trigger] first_markup(source, locators[j]),
                min_length,
            ).is_none(),
    ensures
        accepted_region_from(source, locators, min_length, from) == Some(markup),
    decreases at - from,
{
    if from < at {
        earliest_region_from(source, locators, min_length, at, markup, from + 1);
    }
}

/// Where no region qualifies, none is accepted.
pub proof fn no_region_is_accepted_when_none_qualifies(
    source: Seq<char>,
    locators: Seq<Seq<char>>,
    min_length: nat,
    from: int,
)
    requires
        0 <= from,
        forall|j: int|
            0 <= j < locators.len() ==> region_candidate(
                #[trigger] first_markup(source, locators[j]),
                min_length,
            ).is_none(),
    ensures
        accepted_region_from(source, locators, min_length, from).is_none(),
    decreases locators.len() - from,
{
    if from < locators.len() {
        no_region_is_accepted_when_none_qualifies(source, locators, min_length, from + 1);
    }
}

/// Where every region that a selector finds holds at most `min_length`
/// characters, what is converted is the body's inner markup where the page
/// has a body, and the raw page where it has none. No rejected region is
/// converted on its own.
pub proof fn short_regions_fall_back(source: Seq<char>, locators: Seq<Seq<char>>, min_length: nat)
    requires
        forall|j: int|
            0 <= j < locators.len() ==> (#[trigger] first_markup(source, locators[j])
                matches ProbeView::Found(markup) ==> markup.len() <= min_length),
    ensures
        accepted_region(source, locators, min_length).is_none(),
        chosen_markup(source, locators, min_length) == fallback_markup(
            first_markup(source, body_query()),
            source,
        ),
        forall|body: Seq<char>|
            first_markup(source, body_query()) == ProbeView::Found(body) ==> chosen_markup(
                source,
                locators,
                min_length,
            ) == body,
        !(first_markup(source, body_query()) is Found) ==> chosen_markup(
            source,
            locators,
            min_length,
        ) == source,
{
    no_region_is_accepted_when_none_qualifies(source, locators, min_length, 0);
}

/// Under the default catalog and threshold: where every candidate region
/// holds at most 200 characters and the page has a body, what is converted
/// is the body's inner markup.
pub proof fn short_page_converts_its_body(source: Seq<char>, fallback: Seq<char>, body: Seq<char>)
    requires
        forall|j: int|
            0 <= j < default_region_catalog().len() ==> (#[trigger] first_markup(
                source,
                default_region_catalog()[j],
            ) matches ProbeView::Found(markup) ==> markup.len() <= 200),
        first_markup(source, "body"@) == ProbeView::Found(body),
    ensures
        selection_of(source, fallback).markup == body,
{
    short_regions_fall_back(source, default_region_catalog(), DEFAULT_MIN_CONTENT_LENGTH as nat);
}

/// Under the default catalog and threshold: where no candidate region
/// qualifies and the page has no body, what is converted is the raw page.
pub proof fn page_without_body_is_converted_whole(source: Seq<char>, fallback: Seq<char>)
    requires
        forall|j: int|
            0 <= j < default_region_catalog().len() ==> (#[trigger] first_markup(
                source,
                default_region_catalog()[j],
            ) matches ProbeView::Found(markup) ==> markup.len() <= 200),
        !(first_markup(source, "body"@) is Found),
    ensures
        selection_of(source, fallback).markup == source,
{
    short_regions_fall_back(source, default_region_catalog(), DEFAULT_MIN_CONTENT_LENGTH as nat);
}

/// Extraction has no hidden state: two runs on the same page with the same
/// fallback pick the same title and the same markup.
pub proof fn extraction_is_repeatable(
    html: Seq<char>,
    fallback: Seq<char>,
    first: SelectionView,
    second: SelectionView,
)
    requires
        first == selection_of(html, fallback),
        second == selection_of(html, fallback),
    ensures
        first == second,
{
}

} // verus!
