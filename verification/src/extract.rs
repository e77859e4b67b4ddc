//! Trusted access to the HTML and JSON parsers.
//!
//! The page parser works on semi-structured HTML and on embedded JSON.
//! Parsing either format is delegated to the `scraper` and `serde_json`
//! crates behind the wrappers below; each wrapper's result is a pure
//! function of its arguments and is given a name that the parser's
//! contracts are stated over.

use vstd::prelude::*;

verus! {

/// The concatenated text of the first element of `html` that matches
/// `selector`, or none when nothing matches or the selector is invalid.
pub uninterp spec fn first_text_of(html: Seq<char>, selector: Seq<char>) -> Option<Seq<char>>;

/// The values of attribute `attr` over all elements of `html` that match
/// `selector`, in document order, elements without the attribute skipped.
pub uninterp spec fn attr_values_of(html: Seq<char>, selector: Seq<char>, attr: Seq<char>) -> Seq<
    Seq<char>,
>;

/// For every element of `html` that matches `container_selector`, in
/// document order: its concatenated text, and the values of attribute
/// `attr` over its descendants that match `link_selector`.
pub uninterp spec fn sections_of(
    html: Seq<char>,
    container_selector: Seq<char>,
    link_selector: Seq<char>,
    attr: Seq<char>,
) -> Seq<(Seq<char>, Seq<Seq<char>>)>;

/// The string value of field `key` of the JSON document `text`, or none
/// when `text` is not a JSON object or the field is absent or not a string.
pub uninterp spec fn json_str_field_of(text: Seq<char>, key: Seq<char>) -> Option<Seq<char>>;

/// The string elements of the array field `key` of the JSON document
/// `text`, non-string elements skipped, or none when `text` is not a JSON
/// object or the field is absent or not an array.
pub uninterp spec fn json_str_list_of(text: Seq<char>, key: Seq<char>) -> Option<Seq<Seq<char>>>;

/// Relies on scraper's `Html::parse_document`, `Selector::parse`,
/// `Html::select` and `ElementRef::text` for the text of the first element
/// that matches the selector.
#[verifier::external_body]
pub(crate) fn select_first_text(html: &str, selector: &str) -> (r: Option<String>)
    ensures
        match r {
            Some(t) => first_text_of(html@, selector@) == Some(t@),
            None => first_text_of(html@, selector@) is None,
        },
{
    let document = scraper::Html::parse_document(html);
    let sel = match scraper::Selector::parse(selector) {
        Ok(sel) => sel,
        Err(_) => return None,
    };
    document.select(&sel).next().map(|element| element.text().collect::<String>())
}

/// Relies on scraper's `Html::parse_document`, `Selector::parse`,
/// `Html::select` and `ElementRef::attr` for the attribute values of all
/// elements that match the selector, in document order.
#[verifier::external_body]
pub(crate) fn select_attr_values(html: &str, selector: &str, attr: &str) -> (r: Vec<String>)
    ensures
        r@.map_values(|x: String| x@) == attr_values_of(html@, selector@, attr@),
{
    let document = scraper::Html::parse_document(html);
    let sel = match scraper::Selector::parse(selector) {
        Ok(sel) => sel,
        Err(_) => return Vec::new(),
    };
    document.select(&sel).filter_map(|element| element.attr(attr)).map(String::from).collect()
}

/// Relies on scraper's `Html::parse_document`, `Selector::parse`,
/// `Html::select`, `ElementRef::select`, `ElementRef::text` and
/// `ElementRef::attr` for each matching container's text together with the
/// attribute values of its matching descendants.
#[verifier::external_body]
pub(crate) fn select_sections(
    html: &str,
    container_selector: &str,
    link_selector: &str,
    attr: &str,
) -> (r: Vec<(String, Vec<String>)>)
    ensures
        r@.map_values(|p: (String, Vec<String>)| (p.0@, p.1@.map_values(|x: String| x@)))
            == sections_of(html@, container_selector@, link_selector@, attr@),
{
    let document = scraper::Html::parse_document(html);
    let (csel, lsel) = match (
        scraper::Selector::parse(container_selector),
        scraper::Selector::parse(link_selector),
    ) {
        (Ok(csel), Ok(lsel)) => (csel, lsel),
        _ => return Vec::new(),
    };
    document.select(&csel).map(
        |node| (
            node.text().collect::<String>(),
            node.select(&lsel).filter_map(|element| element.attr(attr)).map(String::from).collect(),
        ),
    ).collect()
}

/// Relies on serde_json's `from_str`, `Value::get` and `Value::as_str` for
/// the string value of one field of a JSON document.
#[verifier::external_body]
pub(crate) fn json_str_field(text: &str, key: &str) -> (r: Option<String>)
    ensures
        match r {
            Some(v) => json_str_field_of(text@, key@) == Some(v@),
            None => json_str_field_of(text@, key@) is None,
        },
{
    let value: serde_json::Value = match serde_json::from_str(text) {
        Ok(value) => value,
        Err(_) => return None,
    };
    value.get(key).and_then(|field| field.as_str()).map(String::from)
}

/// Relies on serde_json's `from_str`, `Value::get`, `Value::as_array` and
/// `Value::as_str` for the string elements of one array field of a JSON
/// document.
#[verifier::external_body]
pub(crate) fn json_str_list_field(text: &str, key: &str) -> (r: Option<Vec<String>>)
    ensures
        match r {
            Some(l) => json_str_list_of(text@, key@) == Some(
                l@.map_values(|x: String| x@),
            ),
            None => json_str_list_of(text@, key@) is None,
        },
{
    let value: serde_json::Value = match serde_json::from_str(text) {
        Ok(value) => value,
        Err(_) => return None,
    };
    let list = match value.get(key).and_then(|field| field.as_array()) {
        Some(list) => list,
        None => return None,
    };
    Some(list.iter().filter_map(|entry| entry.as_str()).map(String::from).collect())
}

} // verus!
