//! Reading HTML through `scraper`: each function parses the given text and
//! answers one question about the elements a CSS selector picks out. The
//! answers are named by the specification functions below; a selector that
//! does not parse picks out no element.

use vstd::prelude::*;
use scraper::{Html, Selector};

verus! {

/// The characters of an optional string.
pub open spec fn opt_view(o: Option<String>) -> Option<Seq<char>> {
    match o {
        Some(s) => Some(s@),
        None => None,
    }
}

/// The characters of an optional optional string.
pub open spec fn opt_opt_view(o: Option<Option<String>>) -> Option<Option<Seq<char>>> {
    match o {
        Some(i) => Some(opt_view(i)),
        None => None,
    }
}

/// The characters of each string of a list.
pub open spec fn strings_view(v: Seq<String>) -> Seq<Seq<char>> {
    v.map_values(|s: String| s@)
}

/// For the HTML fragment `html`: `None` when `selector` picks out no element,
/// otherwise the first text node inside the first element it picks out.
pub uninterp spec fn first_match_text(html: Seq<char>, selector: Seq<char>) -> Option<Option<Seq<char>>>;

/// For the HTML fragment `html`: `None` when `selector` picks out no element,
/// otherwise the value of attribute `attr` of the first element it picks out.
pub uninterp spec fn first_match_attr(html: Seq<char>, selector: Seq<char>, attr: Seq<char>) -> Option<Option<Seq<char>>>;

/// For the HTML fragment `html`: `None` when `outer` picks out no element or
/// `inner` picks out nothing inside the first of them, otherwise the first
/// text node of the first element `inner` picks out inside it.
pub uninterp spec fn nested_match_text(html: Seq<char>, outer: Seq<char>, inner: Seq<char>) -> Option<Option<Seq<char>>>;

/// For the HTML fragment `html`: the HTML of every element `selector` picks
/// out, in document order.
pub uninterp spec fn all_matches_html(html: Seq<char>, selector: Seq<char>) -> Seq<Seq<char>>;

/// For the HTML fragment `html`: `None` when `selector` picks out no element,
/// otherwise all text nodes of the first element it picks out, joined.
pub uninterp spec fn first_match_all_text(html: Seq<char>, selector: Seq<char>) -> Option<Seq<char>>;

/// For the HTML document `html`: for every element `selector` picks out, in
/// document order, its first text node and the value of attribute `attr`.
pub uninterp spec fn document_matches(html: Seq<char>, selector: Seq<char>, attr: Seq<char>) -> Seq<(Option<Seq<char>>, Option<Seq<char>>)>;

/// `Html::parse_fragment`, `Selector::parse`, `select`, then the first text
/// node of the first match.
#[verifier::external_body]
pub(crate) fn select_first_text(html: &str, selector: &str) -> (r: Option<Option<String>>)
    ensures
        opt_opt_view(r) == first_match_text(html@, selector@),
{
    let selector = Selector::parse(selector).ok()?;
    let fragment = Html::parse_fragment(html);
    let element = fragment.select(&selector).next()?;
    Some(element.text().next().map(|t| t.to_string()))
}

/// `Html::parse_fragment`, `Selector::parse`, `select`, then the value of
/// attribute `attr` of the first match.
#[verifier::external_body]
pub(crate) fn select_first_attr(html: &str, selector: &str, attr: &str) -> (r: Option<Option<String>>)
    ensures
        opt_opt_view(r) == first_match_attr(html@, selector@, attr@),
{
    let selector = Selector::parse(selector).ok()?;
    let fragment = Html::parse_fragment(html);
    let element = fragment.select(&selector).next()?;
    Some(element.value().attr(attr).map(|t| t.to_string()))
}

/// `Html::parse_fragment`, `select` of `outer`, then `select` of `inner`
/// inside its first match, and the first text node of that.
#[verifier::external_body]
pub(crate) fn select_nested_first_text(html: &str, outer: &str, inner: &str) -> (r: Option<Option<String>>)
    ensures
        opt_opt_view(r) == nested_match_text(html@, outer@, inner@),
{
    let outer = Selector::parse(outer).ok()?;
    let inner = Selector::parse(inner).ok()?;
    let fragment = Html::parse_fragment(html);
    let element = fragment.select(&outer).next()?.select(&inner).next()?;
    Some(element.text().next().map(|t| t.to_string()))
}

/// `Html::parse_fragment`, `select`, then `ElementRef::html` of every match.
#[verifier::external_body]
pub(crate) fn select_all_html(html: &str, selector: &str) -> (r: Vec<String>)
    ensures
        strings_view(r@) == all_matches_html(html@, selector@),
{
    match Selector::parse(selector) {
        Ok(selector) => Html::parse_fragment(html).select(&selector).map(|e| e.html()).collect(),
        Err(_) => Vec::new(),
    }
}

/// `Html::parse_fragment`, `select`, then all text nodes of the first match
/// joined together.
#[verifier::external_body]
pub(crate) fn select_first_all_text(html: &str, selector: &str) -> (r: Option<String>)
    ensures
        opt_view(r) == first_match_all_text(html@, selector@),
{
    let selector = Selector::parse(selector).ok()?;
    let fragment = Html::parse_fragment(html);
    let element = fragment.select(&selector).next()?;
    Some(element.text().collect::<Vec<_>>().join(""))
}

/// `Html::parse_document`, `select`, then for every match its first text
/// node and the value of attribute `attr`.
#[verifier::external_body]
pub(crate) fn document_select_text_attr(html: &str, selector: &str, attr: &str) -> (r: Vec<(Option<String>, Option<String>)>)
    ensures
        r@.map_values(|p: (Option<String>, Option<String>)| (opt_view(p.0), opt_view(p.1))) == document_matches(html@, selector@, attr@),
{
    let Ok(selector) = Selector::parse(selector) else { return Vec::new() };
    let document = Html::parse_document(html);
    document.select(&selector).map(|e| (e.text().next().map(|t| t.to_string()), e.value().attr(attr).map(|t| t.to_string()))).collect()
}

} // verus!
