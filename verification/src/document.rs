//! Parsed pages and the selection of their elements, as the `scraper` crate
//! provides them. Nothing in this file is proved: it states what the rest of
//! the library takes from `scraper`.

use vstd::prelude::*;

verus! {

/// `scraper::Html`, a parsed page. Its inside is not visible to proofs.
#[verifier::external_type_specification]
#[verifier::external_body]
pub struct ExHtml(scraper::Html);

/// `scraper::Selector`, a compiled selector group. Its inside is not visible
/// to proofs.
#[verifier::external_type_specification]
#[verifier::external_body]
pub struct ExSelector(scraper::Selector);

/// What the library reads of one element of a page.
pub struct ElementView {
    /// The element's descendant text nodes, concatenated in document order.
    pub text: Seq<char>,
    /// The element's attributes that have no namespace: name to value.
    pub attrs: Map<Seq<char>, Seq<char>>,
}

/// The page that `scraper::Html::parse_document` builds from a text.
pub uninterp spec fn parsed_document(text: Seq<char>) -> scraper::Html;

/// The selector that `scraper::Selector::parse` compiles from a pattern, or
/// `None` where the pattern is no selector group.
pub uninterp spec fn parsed_selector(pattern: Seq<char>) -> Option<scraper::Selector>;

/// The elements that `scraper::Html::select` hands out for a page and a
/// selector, in the order in which it hands them out, which is document
/// order.
pub uninterp spec fn selected(document: scraper::Html, selector: scraper::Selector) -> Seq<
    ElementView,
>;

/// Of each element its text.
pub open spec fn texts_of(elements: Seq<ElementView>) -> Seq<Seq<char>> {
    elements.map_values(|element: ElementView| element.text)
}

/// Of each element the value of its attribute `name`, or `None` where the
/// element has no attribute of that name.
pub open spec fn attrs_of(elements: Seq<ElementView>, name: Seq<char>) -> Seq<Option<Seq<char>>> {
    elements.map_values(|element: ElementView| element.attrs.get(name))
}

/// Calls `scraper::Html::parse_document`, which never fails: of markup that is
/// broken it builds what it can. The contract only names the result, which
/// depends on the text alone.
#[verifier::external_body]
pub(crate) fn parse_document(text: &str) -> (document: scraper::Html)
    ensures
        document == parsed_document(text@),
{
    scraper::Html::parse_document(text)
}

/// Calls `scraper::Selector::parse` and drops what the error says. The
/// contract only names the result, which depends on the pattern alone.
#[verifier::external_body]
pub(crate) fn parse_selector(pattern: &str) -> (selector: Option<scraper::Selector>)
    ensures
        selector == parsed_selector(pattern@),
{
    scraper::Selector::parse(pattern).ok()
}

/// Calls `scraper::Html::select` and hands out the text of each element that
/// it yields: `scraper::ElementRef::text`, collected into one `String`.
#[verifier::external_body]
pub(crate) fn select_texts(document: &scraper::Html, selector: &scraper::Selector) -> (texts: Vec<
    String,
>)
    ensures
        texts.deep_view() == texts_of(selected(*document, *selector)),
{
    document.select(selector).map(|element| element.text().collect::<String>()).collect()
}

/// Calls `scraper::Html::select` and hands out, for each element that it
/// yields, what `scraper::node::Element::attr` gives for `name`: the value of
/// that attribute, or `None` where the element has none of that name.
#[verifier::external_body]
pub(crate) fn select_attrs(
    document: &scraper::Html,
    selector: &scraper::Selector,
    name: &str,
) -> (values: Vec<Option<String>>)
    ensures
        values.deep_view() == attrs_of(selected(*document, *selector), name@),
{
    document.select(selector).map(|element| element.value().attr(name).map(String::from)).collect()
}

} // verus!
