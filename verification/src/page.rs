//! The root page parser.
//!
//! A fetched page yields a `WorkshopRootPage`: the page's identifier and
//! its ordered, deduplicated list of absolute dependency URLs. Both are
//! extracted through an ordered chain of independent strategies; the first
//! strategy that produces a value wins, independently for the identifier
//! and for the dependency list.

use vstd::prelude::*;
use crate::chars::chars_of;
use crate::dedup::dedup_first;
use crate::dedup::dedupe_preserve_order;
use crate::extract::attr_values_of;
use crate::extract::first_text_of;
use crate::extract::json_str_field;
use crate::extract::json_str_field_of;
use crate::extract::json_str_list_field;
use crate::extract::json_str_list_of;
use crate::extract::sections_of;
use crate::extract::select_attr_values;
use crate::extract::select_first_text;
use crate::extract::select_sections;
use crate::ids::extract_id_from_html_spec;
use crate::ids::extract_workshop_id_from_html;
use crate::urls::normalize_dependency_urls;
use crate::urls::normalize_url_spec;

verus! {

broadcast use vstd::string::group_string_axioms;

/// A parsed page: its identifier and its dependency links, normalized and
/// deduplicated, in first-occurrence order.
#[derive(Clone, Debug)]
pub struct WorkshopRootPage {
    pub workshop_id: String,
    pub dependency_urls: Vec<String>,
}

/// The view of an optional string slice.
pub open spec fn opt_str_view(s: Option<&str>) -> Option<Seq<char>> {
    match s {
        Some(t) => Some(t@),
        None => None,
    }
}

/// The identifier advertised by the embedded structured-data block: the
/// `workshopId` field of the well-known script element's JSON, or its `id`
/// field as a fallback alias.
pub open spec fn embedded_id(html: Seq<char>) -> Option<Seq<char>> {
    match first_text_of(html, ("script#__WORKSHOP_STATE__")@) {
        Some(txt) => match json_str_field_of(txt, ("workshopId")@) {
            Some(v) => Some(v),
            None => json_str_field_of(txt, ("id")@),
        },
        None => None,
    }
}

/// The dependency links advertised by the embedded structured-data block's
/// `dependencies` array, or the empty sequence when the block or the array
/// is absent.
pub open spec fn embedded_deps(html: Seq<char>) -> Seq<Seq<char>> {
    match first_text_of(html, ("script#__WORKSHOP_STATE__")@) {
        Some(txt) => match json_str_list_of(txt, ("dependencies")@) {
            Some(l) => l,
            None => Seq::empty(),
        },
        None => Seq::empty(),
    }
}

/// The first identifier found among the `data-props` attribute values at
/// or after position `k`: the `workshopId` field of a value that parses as
/// JSON, or its `id` field.
pub open spec fn data_props_id_from(props: Seq<Seq<char>>, k: int) -> Option<Seq<char>>
    decreases props.len() - k,
{
    if k < 0 || k >= props.len() {
        None
    } else {
        match json_str_field_of(props[k], ("workshopId")@) {
            Some(v) => Some(v),
            None => match json_str_field_of(props[k], ("id")@) {
                Some(v) => Some(v),
                None => data_props_id_from(props, k + 1),
            },
        }
    }
}

/// The `data-props` attribute values of `html`, in document order.
pub open spec fn data_props_of(html: Seq<char>) -> Seq<Seq<char>> {
    attr_values_of(html, ("[data-props]")@, ("data-props")@)
}

/// The page's identifier, by the ordered chain of strategies: the embedded
/// structured-data block, the caller-supplied hint, the `ID` label scan of
/// the raw text, and the `data-props` attribute scan.
pub open spec fn parsed_root_id(html: Seq<char>, hint: Option<Seq<char>>) -> Option<Seq<char>> {
    if embedded_id(html) is Some {
        embedded_id(html)
    } else if hint is Some {
        hint
    } else if extract_id_from_html_spec(html) is Some {
        extract_id_from_html_spec(html)
    } else {
        data_props_id_from(data_props_of(html), 0)
    }
}

/// The twelve characters of the `Dependencies` heading start at position
/// `i`.
pub open spec fn deps_marker_at(s: Seq<char>, i: int) -> bool {
    &&& 0 <= i
    &&& i + 12 <= s.len()
    &&& s[i] == 'D'
    &&& s[i + 1] == 'e'
    &&& s[i + 2] == 'p'
    &&& s[i + 3] == 'e'
    &&& s[i + 4] == 'n'
    &&& s[i + 5] == 'd'
    &&& s[i + 6] == 'e'
    &&& s[i + 7] == 'n'
    &&& s[i + 8] == 'c'
    &&& s[i + 9] == 'i'
    &&& s[i + 10] == 'e'
    &&& s[i + 11] == 's'
}

/// The text holds the literal `Dependencies` heading somewhere.
pub open spec fn has_deps_marker(s: Seq<char>) -> bool {
    exists|i: int| deps_marker_at(s, i)
}

/// The workshop links of the first container at or after position `k`
/// whose visible text holds the `Dependencies` heading and that holds at
/// least one such link.
pub open spec fn section_deps_from(secs: Seq<(Seq<char>, Seq<Seq<char>>)>, k: int) -> Option<
    Seq<Seq<char>>,
>
    decreases secs.len() - k,
{
    if k < 0 || k >= secs.len() {
        None
    } else if has_deps_marker(secs[k].0) && secs[k].1.len() > 0 {
        Some(secs[k].1)
    } else {
        section_deps_from(secs, k + 1)
    }
}

/// The container scan of `html`: every `section` or `div`, with its text
/// and the `href` values of its workshop anchors.
pub open spec fn page_sections(html: Seq<char>) -> Seq<(Seq<char>, Seq<Seq<char>>)> {
    sections_of(html, ("section, div")@, ("a[href*=\"/workshop/\"]")@, ("href")@)
}

/// The `href` values of every workshop anchor of the whole document.
pub open spec fn document_deps(html: Seq<char>) -> Seq<Seq<char>> {
    attr_values_of(html, ("a[href*=\"/workshop/\"]")@, ("href")@)
}

/// The page's raw dependency links, by the ordered chain of strategies:
/// the embedded structured-data block's array when it is not empty, the
/// scoped scan of a `Dependencies` container, and the whole-document scan.
pub open spec fn raw_dep_links(html: Seq<char>) -> Seq<Seq<char>> {
    if embedded_deps(html).len() > 0 {
        embedded_deps(html)
    } else {
        match section_deps_from(page_sections(html), 0) {
            Some(l) => l,
            None => document_deps(html),
        }
    }
}

/// The page's dependency URL list: the raw links, each normalized against
/// `origin`, duplicates removed, first-occurrence order preserved.
pub open spec fn parsed_dep_urls(html: Seq<char>, origin: Seq<char>) -> Seq<Seq<char>> {
    dedup_first(raw_dep_links(html).map_values(|u: Seq<char>| normalize_url_spec(origin, u)))
}

fn deps_marker_check(v: &Vec<char>, i: usize) -> (r: bool)
    requires
        i + 12 <= v.len(),
    ensures
        r == deps_marker_at(v@, i as int),
{
    v[i] == 'D' && v[i + 1] == 'e' && v[i + 2] == 'p' && v[i + 3] == 'e' && v[i + 4] == 'n'
        && v[i + 5] == 'd' && v[i + 6] == 'e' && v[i + 7] == 'n' && v[i + 8] == 'c'
        && v[i + 9] == 'i' && v[i + 10] == 'e' && v[i + 11] == 's'
}

fn has_deps_marker_check(text: &str) -> (r: bool)
    ensures
        r == has_deps_marker(text@),
{
    let v = chars_of(text);
    let n = v.len();
    if n < 12 {
        return false;
    }
    let mut i: usize = 0;
    while i <= n - 12
        invariant
            v@ == text@,
            n == v.len(),
            12 <= n,
            i <= n - 11,
            forall|j: int| 0 <= j < i ==> !deps_marker_at(text@, j),
        decreases n - i,
    {
        if deps_marker_check(&v, i) {
            return true;
        }
        i += 1;
    }
    false
}

fn clone_string_vec(v: &Vec<String>) -> (r: Vec<String>)
    ensures
        r@.map_values(|x: String| x@) == v@.map_values(|x: String| x@),
{
    let mut r: Vec<String> = Vec::new();
    let n = v.len();
    let mut k: usize = 0;
    while k < n
        invariant
            n == v.len(),
            k <= n,
            r@.map_values(|x: String| x@) == v@.map_values(|x: String| x@).take(k as int),
        decreases n - k,
    {
        let ghost before = r@;
        let nk = v[k].clone();
        let ghost nkv = nk;
        proof {
            assert(nkv@ == v@[k as int]@);
            assert(before.map_values(|x: String| x@).len() == k as int);
            assert(before.len() == k as int);
        }
        r.push(nk);
        proof {
            assert(r@ == before.push(nkv));
            assert(r@.map_values(|x: String| x@) =~= v@.map_values(|x: String| x@).take(
                k as int + 1,
            ));
        }
        k += 1;
    }
    proof {
        assert(v@.map_values(|x: String| x@).take(n as int) =~= v@.map_values(|x: String| x@));
    }
    r
}

fn extract_root_id(html: &str, expected_id: Option<&str>) -> (r: Option<String>)
    ensures
        match r {
            Some(id) => parsed_root_id(html@, opt_str_view(expected_id)) == Some(id@),
            None => parsed_root_id(html@, opt_str_view(expected_id)) is None,
        },
{
    let state_text = select_first_text(html, "script#__WORKSHOP_STATE__");
    match &state_text {
        Some(txt) => {
            match json_str_field(txt.as_str(), "workshopId") {
                Some(v) => {
                    return Some(v);
                },
                None => {
                    match json_str_field(txt.as_str(), "id") {
                        Some(v) => {
                            return Some(v);
                        },
                        None => {},
                    }
                },
            }
        },
        None => {},
    }
    proof {
        assert(embedded_id(html@) is None);
    }
    match expected_id {
        Some(hint) => {
            return Some(hint.to_owned());
        },
        None => {},
    }
    match extract_workshop_id_from_html(html) {
        Some(id) => {
            return Some(id);
        },
        None => {},
    }
    let props = select_attr_values(html, "[data-props]", "data-props");
    let n = props.len();
    let mut k: usize = 0;
    while k < n
        invariant
            n == props.len(),
            k <= n,
            props@.map_values(|x: String| x@) == data_props_of(html@),
            embedded_id(html@) is None,
            opt_str_view(expected_id) is None,
            extract_id_from_html_spec(html@) is None,
            data_props_id_from(data_props_of(html@), 0) == data_props_id_from(
                data_props_of(html@),
                k as int,
            ),
        decreases n - k,
    {
        match json_str_field(props[k].as_str(), "workshopId") {
            Some(v) => {
                return Some(v);
            },
            None => {},
        }
        match json_str_field(props[k].as_str(), "id") {
            Some(v) => {
                return Some(v);
            },
            None => {},
        }
        k += 1;
    }
    None
}

fn extract_raw_dep_links(html: &str) -> (r: Vec<String>)
    ensures
        r@.map_values(|x: String| x@) == raw_dep_links(html@),
{
    let state_text = select_first_text(html, "script#__WORKSHOP_STATE__");
    match &state_text {
        Some(txt) => {
            match json_str_list_field(txt.as_str(), "dependencies") {
                Some(list) => {
                    if list.len() > 0 {
                        return list;
                    }
                },
                None => {},
            }
        },
        None => {},
    }
    proof {
        assert(embedded_deps(html@).len() == 0);
    }
    let secs = select_sections(html, "section, div", "a[href*=\"/workshop/\"]", "href");
    let n = secs.len();
    let mut k: usize = 0;
    while k < n
        invariant
            n == secs.len(),
            k <= n,
            secs@.map_values(|p: (String, Vec<String>)| (p.0@, p.1@.map_values(|x: String| x@)))
                == page_sections(html@),
            embedded_deps(html@).len() == 0,
            section_deps_from(page_sections(html@), 0) == section_deps_from(
                page_sections(html@),
                k as int,
            ),
        decreases n - k,
    {
        if has_deps_marker_check(secs[k].0.as_str()) && secs[k].1.len() > 0 {
            proof {
                assert(page_sections(html@)[k as int].1 == secs@[k as int].1@.map_values(
                    |x: String| x@,
                ));
            }
            return clone_string_vec(&secs[k].1);
        }
        k += 1;
    }
    select_attr_values(html, "a[href*=\"/workshop/\"]", "href")
}

/// Parses a fetched page into its identifier and dependency URL list.
///
/// The identifier comes from the first strategy that yields one: the
/// embedded structured-data block, the caller-supplied hint, the `ID`
/// label scan, the `data-props` scan. The dependency links come from the
/// embedded block's array when it is not empty, else from the first
/// `Dependencies` container that holds workshop anchors, else from every
/// workshop anchor of the document; they are normalized against `origin`
/// and deduplicated. A page on which every identifier strategy fails is
/// rejected.
pub fn parse_root_page(html: &str, expected_id: Option<&str>, origin: &str) -> (r: Result<
    WorkshopRootPage,
    String,
>)
    ensures
        match r {
            Ok(page) => {
                &&& parsed_root_id(html@, opt_str_view(expected_id)) == Some(page.workshop_id@)
                &&& page.dependency_urls@.map_values(|x: String| x@) == parsed_dep_urls(
                    html@,
                    origin@,
                )
            },
            Err(e) => {
                &&& parsed_root_id(html@, opt_str_view(expected_id)) is None
                &&& e@ == ("workshop id not found")@
            },
        },
{
    let workshop_id = match extract_root_id(html, expected_id) {
        Some(id) => id,
        None => {
            return Err("workshop id not found".to_owned());
        },
    };
    let raw = extract_raw_dep_links(html);
    let normalized = normalize_dependency_urls(origin, raw);
    let dependency_urls = dedupe_preserve_order(normalized);
    Ok(WorkshopRootPage { workshop_id, dependency_urls })
}

} // verus!
