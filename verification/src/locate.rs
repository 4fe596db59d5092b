//! Activity location: structured element queries over the fetched document
//! text, guarded so that only well-formed calendar keys reach the query syntax.
use crate::date::is_calendar_key;
use crate::PipelineError;
use vstd::prelude::*;
use vstd::string::*;

verus! {

/// The attribute value of the first element of a document matching a CSS
/// query, in document order; `None` where the query does not parse, nothing
/// matches, or the attribute is absent.
pub uninterp spec fn first_match_attr(
    doc: Seq<char>,
    query: Seq<char>,
    attr: Seq<char>,
) -> Option<Seq<char>>;

/// The inner HTML of the first element of a document matching a CSS query, in
/// document order; `None` where the query does not parse or nothing matches.
pub uninterp spec fn first_match_inner_html(doc: Seq<char>, query: Seq<char>) -> Option<Seq<char>>;

/// Relies on scraper: `Html::parse_document` (via html5ever) and CSS selection
/// are deterministic functions of the text, `select` walks the node tree in
/// document order, and `ElementRef::attr` returns the element's attribute.
#[verifier::external_body]
fn select_first_attr(document: &str, query: &str, attr: &str) -> (r: Option<String>)
    ensures
        r is Some <==> first_match_attr(document@, query@, attr@) is Some,
        r matches Some(v) ==> first_match_attr(document@, query@, attr@) == Some(v@),
{
    let html = scraper::Html::parse_document(document);
    let selector = match scraper::Selector::parse(query) {
        Ok(s) => s,
        Err(_) => return None,
    };
    let element = html.select(&selector).next()?;
    element.attr(attr).map(|v| v.to_string())
}

/// Relies on scraper: `Html::parse_document` and CSS selection are
/// deterministic functions of the text, `select` walks the node tree in
/// document order, and `ElementRef::inner_html` serializes the element's
/// children.
#[verifier::external_body]
fn select_first_inner_html(document: &str, query: &str) -> (r: Option<String>)
    ensures
        r is Some <==> first_match_inner_html(document@, query@) is Some,
        r matches Some(v) ==> first_match_inner_html(document@, query@) == Some(v@),
{
    let html = scraper::Html::parse_document(document);
    let selector = match scraper::Selector::parse(query) {
        Ok(s) => s,
        Err(_) => return None,
    };
    let element = html.select(&selector).next()?;
    Some(element.inner_html())
}

/// The query selecting the day marker carrying a calendar key.
pub open spec fn spec_date_query(key: Seq<char>) -> Seq<char> {
    "td[data-date=\""@ + key + "\"]"@
}

/// The query selecting the companion tooltip referencing a marker element.
pub open spec fn spec_tooltip_query(id: Seq<char>) -> Seq<char> {
    "tool-tip[for=\""@ + id + "\"]"@
}

/// Builds the day-marker query for a key.
fn build_date_query(key: &str) -> (q: String)
    ensures
        q@ == spec_date_query(key@),
{
    let r = "td[data-date=\"".to_owned().concat(key).concat("\"]");
    proof {
        assert(r@ =~= spec_date_query(key@));
    }
    r
}

/// Builds the companion-tooltip query for a marker identifier.
fn build_tooltip_query(id: &str) -> (q: String)
    ensures
        q@ == spec_tooltip_query(id@),
{
    let r = "tool-tip[for=\"".to_owned().concat(id).concat("\"]");
    proof {
        assert(r@ =~= spec_tooltip_query(id@));
    }
    r
}

/// How the count is read off the page: straight from the day marker's count
/// attribute, or from the text of the companion tooltip element.
#[derive(Clone, Copy, Debug, PartialEq, Eq, Structural)]
pub enum ExtractionStrategy {
    NumericTiered,
    TextualTooltip,
}

/// The located sub-structure of the document describing one day's activity.
#[derive(Debug)]
pub struct ActivityFragment {
    pub content: String,
}

/// The text of a locator outcome.
pub open spec fn spec_frag_view(located: Option<ActivityFragment>) -> Option<Seq<char>> {
    match located {
        Some(f) => Some(f.content@),
        None => None,
    }
}

/// What the locator finds for a key under a strategy: the day marker's count
/// attribute, or the text of the tooltip referencing the marker's identifier.
pub open spec fn spec_locate(
    doc: Seq<char>,
    key: Seq<char>,
    strategy: ExtractionStrategy,
) -> Option<Seq<char>> {
    match strategy {
        ExtractionStrategy::NumericTiered => first_match_attr(
            doc,
            spec_date_query(key),
            "data-count"@,
        ),
        ExtractionStrategy::TextualTooltip => match first_match_attr(
            doc,
            spec_date_query(key),
            "id"@,
        ) {
            Some(id) => first_match_inner_html(doc, spec_tooltip_query(id)),
            None => None,
        },
    }
}

/// Finds the activity fragment for a calendar key in the document text. A key
/// that fails the `YYYY-MM-DD` invariant is rejected before any query is
/// built; a missing marker, identifier or tooltip degrades to `None`.
pub fn locate(document: &str, key: &str, strategy: ExtractionStrategy) -> (r: Result<
    Option<ActivityFragment>,
    PipelineError,
>)
    ensures
        r is Err <==> !is_calendar_key(key@),
        r matches Err(e) ==> e == PipelineError::InvalidKey,
        r matches Ok(located) ==> spec_frag_view(located) == spec_locate(
            document@,
            key@,
            strategy,
        ),
{
    if !crate::date::check_calendar_key(key) {
        return Err(PipelineError::InvalidKey);
    }
    let query = build_date_query(key);
    match strategy {
        ExtractionStrategy::NumericTiered => {
            match select_first_attr(document, query.as_str(), "data-count") {
                Some(content) => Ok(Some(ActivityFragment { content })),
                None => Ok(None),
            }
        },
        ExtractionStrategy::TextualTooltip => {
            match select_first_attr(document, query.as_str(), "id") {
                None => Ok(None),
                Some(id) => {
                    let tooltip_query = build_tooltip_query(id.as_str());
                    match select_first_inner_html(document, tooltip_query.as_str()) {
                        Some(content) => Ok(Some(ActivityFragment { content })),
                        None => Ok(None),
                    }
                },
            }
        },
    }
}

} // verus!
