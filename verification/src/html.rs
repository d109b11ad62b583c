//! Reading pages of markup, by way of the `scraper` crate: the elements that
//! a selector picks, and what they hold.

use vstd::prelude::*;
use crate::pattern::{strings_of, texts_of, SyntaxError};

verus! {

/// The error of the `scraper` crate for a selector that it does not take.
#[verifier::external_type_specification]
#[verifier::external_body]
pub struct ExSelectorErrorKind(scraper::error::SelectorErrorKind);

/// Whether `scraper::Selector::parse` takes the selector.
pub uninterp spec fn selector_parses(selector: Seq<char>) -> bool;

/// What `scraper::ElementRef::attr` gives for the attribute `attr` of each
/// element that the selector picks in the page, in the order of the page:
/// the value of the attribute, or `None` where the element has none.
pub uninterp spec fn html_attr(html: Seq<char>, selector: Seq<char>, attr: Seq<char>) -> Seq<
    Option<Seq<char>>,
>;

/// The same as `html_attr`, for the elements that `inner` picks inside each
/// element that `outer` picks in the page (`scraper::ElementRef::select`):
/// outer elements in the order of the page, and for each its inner ones.
pub uninterp spec fn html_nested_attr(
    html: Seq<char>,
    outer: Seq<char>,
    inner: Seq<char>,
    attr: Seq<char>,
) -> Seq<Option<Seq<char>>>;

/// What `scraper::ElementRef::inner_html` gives for each element that the
/// selector picks in the page: the markup inside the element.
pub uninterp spec fn html_inner(html: Seq<char>, selector: Seq<char>) -> Seq<Seq<char>>;

/// The first piece of text that `scraper::ElementRef::text` yields for each
/// element that the selector picks in the page, or `None` where the element
/// holds no text.
pub uninterp spec fn html_first_text(html: Seq<char>, selector: Seq<char>) -> Seq<
    Option<Seq<char>>,
>;

/// Parses the selector with `scraper::Selector::parse` and the page with
/// `scraper::Html::parse_document`, walks the elements that `Html::select`
/// yields, and copies what `ElementRef::attr` gives for each.
///
/// Not proved: that the selector is taken exactly when `selector_parses`
/// says so, and that the values copied are those that `html_attr` names.
#[verifier::external_body]
fn select_attr(html: &str, selector: &str, attr: &str) -> (found: Result<
    Vec<Option<String>>,
    scraper::error::SelectorErrorKind,
>)
    ensures
        found is Ok <==> selector_parses(selector@),
        found matches Ok(values) ==> texts_of(values@) == html_attr(html@, selector@, attr@),
{
    let selector = scraper::Selector::parse(selector)?;
    let document = scraper::Html::parse_document(html);
    Ok(document.select(&selector).map(|e| e.attr(attr).map(str::to_string)).collect())
}

/// Parses both selectors and the page, walks the elements that `outer` picks
/// with `Html::select` and inside each those that `inner` picks with
/// `ElementRef::select`, and copies what `ElementRef::attr` gives for each.
///
/// Not proved: that the selectors are taken exactly when `selector_parses`
/// says so, and that the values copied are those that `html_nested_attr`
/// names.
#[verifier::external_body]
fn select_nested_attr(html: &str, outer: &str, inner: &str, attr: &str) -> (found: Result<
    Vec<Option<String>>,
    scraper::error::SelectorErrorKind,
>)
    ensures
        found is Ok <==> (selector_parses(outer@) && selector_parses(inner@)),
        found matches Ok(values) ==> texts_of(values@) == html_nested_attr(
            html@,
            outer@,
            inner@,
            attr@,
        ),
{
    let outer = scraper::Selector::parse(outer)?;
    let inner = scraper::Selector::parse(inner)?;
    let document = scraper::Html::parse_document(html);
    let cells = document.select(&outer).flat_map(|e| e.select(&inner));
    Ok(cells.map(|e| e.attr(attr).map(str::to_string)).collect())
}

/// Parses the selector and the page, walks the elements that `Html::select`
/// yields, and copies what `ElementRef::inner_html` gives for each.
///
/// Not proved: that the selector is taken exactly when `selector_parses`
/// says so, and that the markup copied is what `html_inner` names.
#[verifier::external_body]
fn select_inner(html: &str, selector: &str) -> (found: Result<
    Vec<String>,
    scraper::error::SelectorErrorKind,
>)
    ensures
        found is Ok <==> selector_parses(selector@),
        found matches Ok(blocks) ==> strings_of(blocks@) == html_inner(html@, selector@),
{
    let selector = scraper::Selector::parse(selector)?;
    let document = scraper::Html::parse_document(html);
    Ok(document.select(&selector).map(|e| e.inner_html()).collect())
}

/// Parses the selector and the page, walks the elements that `Html::select`
/// yields, and copies the first item that `ElementRef::text` yields for
/// each.
///
/// Not proved: that the selector is taken exactly when `selector_parses`
/// says so, and that the texts copied are those that `html_first_text`
/// names.
#[verifier::external_body]
fn select_first_text(html: &str, selector: &str) -> (found: Result<
    Vec<Option<String>>,
    scraper::error::SelectorErrorKind,
>)
    ensures
        found is Ok <==> selector_parses(selector@),
        found matches Ok(texts) ==> texts_of(texts@) == html_first_text(html@, selector@),
{
    let selector = scraper::Selector::parse(selector)?;
    let document = scraper::Html::parse_document(html);
    Ok(document.select(&selector).map(|e| e.text().next().map(str::to_string)).collect())
}

/// The attribute `attr` of every element that the selector picks.
pub(crate) fn attr_values(html: &str, selector: &str, attr: &str) -> (found: Result<
    Vec<Option<String>>,
    SyntaxError,
>)
    ensures
        found is Ok <==> selector_parses(selector@),
        found matches Ok(values) ==> texts_of(values@) == html_attr(html@, selector@, attr@),
{
    match select_attr(html, selector, attr) {
        Ok(values) => Ok(values),
        Err(_) => Err(SyntaxError),
    }
}

/// The attribute `attr` of every element that `inner` picks inside an
/// element that `outer` picks.
pub(crate) fn nested_attr_values(html: &str, outer: &str, inner: &str, attr: &str) -> (found: Result<
    Vec<Option<String>>,
    SyntaxError,
>)
    ensures
        found is Ok <==> (selector_parses(outer@) && selector_parses(inner@)),
        found matches Ok(values) ==> texts_of(values@) == html_nested_attr(
            html@,
            outer@,
            inner@,
            attr@,
        ),
{
    match select_nested_attr(html, outer, inner, attr) {
        Ok(values) => Ok(values),
        Err(_) => Err(SyntaxError),
    }
}

/// The markup inside every element that the selector picks.
pub(crate) fn inner_markup(html: &str, selector: &str) -> (found: Result<Vec<String>, SyntaxError>)
    ensures
        found is Ok <==> selector_parses(selector@),
        found matches Ok(blocks) ==> strings_of(blocks@) == html_inner(html@, selector@),
{
    match select_inner(html, selector) {
        Ok(blocks) => Ok(blocks),
        Err(_) => Err(SyntaxError),
    }
}

/// The first piece of text in every element that the selector picks.
pub(crate) fn first_texts(html: &str, selector: &str) -> (found: Result<Vec<Option<String>>, SyntaxError>)
    ensures
        found is Ok <==> selector_parses(selector@),
        found matches Ok(texts) ==> texts_of(texts@) == html_first_text(html@, selector@),
{
    match select_first_text(html, selector) {
        Ok(texts) => Ok(texts),
        Err(_) => Err(SyntaxError),
    }
}

} // verus!
