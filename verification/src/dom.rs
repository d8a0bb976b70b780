//! The trusted boundary around the HTML engine: the parsed document, compiled
//! CSS selectors and element handles of the `scraper` crate, and the one
//! calendar query made of `chrono`.
//!
//! Everything here is believed, not proved.  Each wrapper makes exactly one
//! outside call; the verified traversal loops and all decisions live in the
//! modules that call them.  A parsed document is immutable, so selecting,
//! reading text and reading attributes are pure reads over it.

use vstd::prelude::*;
use chrono::TimeZone;

verus! {

#[verifier::external_type_specification]
#[verifier::external_body]
pub struct ExHtml(scraper::Html);

#[verifier::external_type_specification]
#[verifier::external_body]
pub struct ExSelector(scraper::Selector);

#[verifier::external_type_specification]
#[verifier::external_body]
pub struct ExElementRef<'a>(scraper::ElementRef<'a>);

/// Whether `scraper::Selector::parse` accepts the pattern: a function of the
/// pattern text alone.
pub uninterp spec fn selector_compiles(pattern: Seq<char>) -> bool;

/// Whether a Unix-seconds value lies in the range `chrono` can represent as a
/// UTC instant: a function of the value alone.
pub uninterp spec fn utc_in_range(ts: i64) -> bool;

/// Relies on scraper::Html::parse_document: parses the raw HTML into a
/// document tree.  Parsing never fails hard; errors degrade the tree instead.
#[verifier::external_body]
pub(crate) fn parse_document(html: &str) -> scraper::Html {
    scraper::Html::parse_document(html)
}

/// Relies on scraper::Selector::parse: compiles a CSS selector group, and
/// accepts or rejects the pattern deterministically.
#[verifier::external_body]
pub(crate) fn compile_selector(pattern: &str) -> (r: Option<scraper::Selector>)
    ensures
        r is Some <==> selector_compiles(pattern@),
{
    scraper::Selector::parse(pattern).ok()
}

/// Relies on scraper::Html::select: the descendant elements of the document
/// matching the selector, in document order.
#[verifier::external_body]
pub(crate) fn select_in_document<'a>(doc: &'a scraper::Html, sel: &scraper::Selector) -> Vec<
    scraper::ElementRef<'a>,
> {
    doc.select(sel).collect()
}

/// Relies on scraper::ElementRef::select: the descendant elements of the
/// element matching the selector, in document order.
#[verifier::external_body]
pub(crate) fn select_in_element<'a>(e: &scraper::ElementRef<'a>, sel: &scraper::Selector) -> Vec<
    scraper::ElementRef<'a>,
> {
    e.select(sel).collect()
}

/// Relies on scraper::ElementRef::text: the concatenated descendant text of
/// the element.
#[verifier::external_body]
pub(crate) fn text_of<'a>(e: &scraper::ElementRef<'a>) -> String {
    e.text().collect()
}

/// Relies on scraper::ElementRef::attr: the value of the named attribute, if
/// the element has it.
#[verifier::external_body]
pub(crate) fn attr_of<'a>(e: &scraper::ElementRef<'a>, name: &str) -> Option<String> {
    e.attr(name).map(|v| v.to_owned())
}

/// Relies on chrono's Utc::timestamp_opt, which returns a single instant for
/// every in-range number of Unix seconds and `None` past the representable
/// range; UTC has no folds or gaps, so `Ambiguous` cannot occur.
#[verifier::external_body]
pub(crate) fn timestamp_in_utc_range(ts: i64) -> (r: bool)
    ensures
        r == utc_in_range(ts),
{
    match chrono::Utc.timestamp_opt(ts, 0) {
        chrono::LocalResult::Single(_) => true,
        chrono::LocalResult::Ambiguous(_, _) => false,
        chrono::LocalResult::None => false,
    }
}

} // verus!
