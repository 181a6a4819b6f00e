//! Trusted boundary to the `scraper` crate.
//!
//! A parsed document is carried as an opaque [`scraper::Html`] value.
//! What a document holds under a selector is given two names:
//! [`node_texts`], the concatenated text of each matching node, and
//! [`node_attrs`], a chosen attribute of each matching node.  Both are
//! functions of the document and the query strings alone: `scraper`
//! walks the parsed tree in document order with no other input.  The
//! three query functions below are the only places where the library
//! calls into `scraper`; everything downstream is verified against the
//! two names.  All three treat a selector string that does not parse as
//! a selector matching nothing, so the names stay consistent.

use vstd::prelude::*;
use scraper::Html;

verus! {

#[verifier::external_type_specification]
#[verifier::external_body]
pub struct ExHtml(Html);

/// The concatenated text content of each node of `doc` matching
/// `selector`, in document order.
pub uninterp spec fn node_texts(doc: Html, selector: Seq<char>) -> Seq<Seq<char>>;

/// The value of attribute `attr` on each node of `doc` matching
/// `selector`, in document order; absent where a node lacks the
/// attribute.
pub uninterp spec fn node_attrs(doc: Html, selector: Seq<char>, attr: Seq<char>) -> Seq<
    Option<Seq<char>>,
>;

/// The text of the first node of `html` matching `selector`, or absent
/// when no node matches.
///
/// Relies on scraper's `Selector::parse`, `Html::select` and
/// `ElementRef::text`: `select` yields the matching elements in
/// document order, and `text` yields the text of a node's descendants,
/// so the result is the head of `node_texts`.
#[verifier::external_body]
pub fn string_selector(html: &Html, selector: &str) -> (r: Option<String>)
    ensures
        r is Some <==> node_texts(*html, selector@).len() > 0,
        r matches Some(t) ==> t@ == node_texts(*html, selector@)[0],
{
    match scraper::Selector::parse(selector) {
        Ok(sel) => html.select(&sel).next().map(|element| element.text().collect::<String>()),
        Err(_) => None,
    }
}

/// The texts of every node of `html` matching `selector`, in document
/// order.
///
/// Relies on scraper's `Selector::parse`, `Html::select` and
/// `ElementRef::text`, as [`string_selector`] does, keeping every
/// match instead of the first.
#[verifier::external_body]
pub(crate) fn select_texts(html: &Html, selector: &str) -> (r: Vec<String>)
    ensures
        r.deep_view() == node_texts(*html, selector@),
{
    match scraper::Selector::parse(selector) {
        Ok(sel) => html.select(&sel).map(|element| element.text().collect::<String>()).collect(),
        Err(_) => Vec::new(),
    }
}

/// The value of attribute `attr` on every node of `html` matching
/// `selector`, in document order.
///
/// Relies on scraper's `Selector::parse`, `Html::select` and
/// `Element::attr`: `attr` returns the attribute's value where the
/// element carries it and nothing where it does not.
#[verifier::external_body]
pub(crate) fn select_attrs(html: &Html, selector: &str, attr: &str) -> (r: Vec<Option<String>>)
    ensures
        r.deep_view() == node_attrs(*html, selector@, attr@),
{
    match scraper::Selector::parse(selector) {
        Ok(sel) => html
            .select(&sel)
            .map(|element| element.value().attr(attr).map(|value| value.to_string()))
            .collect(),
        Err(_) => Vec::new(),
    }
}

} // verus!
