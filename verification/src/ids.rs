//! Extraction of workshop identifiers from URLs and from raw page text.
//!
//! An identifier is exactly 16 uppercase hexadecimal characters. In a URL it
//! follows a `/workshop/` path segment; in raw page text it follows an `ID`
//! label separated by whitespace, with word boundaries on both sides. Both
//! extractors return the leftmost occurrence. Whitespace and word
//! characters are the ASCII ones.

use vstd::prelude::*;
use crate::chars::chars_of;
use crate::is_upper_hex;
use crate::upper_hex;

verus! {

broadcast use vstd::string::group_string_axioms;

/// An ASCII word character, as used for the boundary checks of the `ID`
/// label scan.
pub open spec fn is_ascii_word(c: char) -> bool {
    ('0' <= c && c <= '9') || ('A' <= c && c <= 'Z') || ('a' <= c && c <= 'z') || c == '_'
}

/// ASCII whitespace, as used between the `ID` label and the identifier.
pub open spec fn is_space(c: char) -> bool {
    c == ' ' || c == '\t' || c == '\n' || c == '\r' || c == '\u{b}' || c == '\u{c}'
}

/// The ten characters of the `/workshop/` path marker start at position `i`.
pub open spec fn url_marker_at(s: Seq<char>, i: int) -> bool {
    &&& 0 <= i
    &&& i + 10 <= s.len()
    &&& s[i] == '/'
    &&& s[i + 1] == 'w'
    &&& s[i + 2] == 'o'
    &&& s[i + 3] == 'r'
    &&& s[i + 4] == 'k'
    &&& s[i + 5] == 's'
    &&& s[i + 6] == 'h'
    &&& s[i + 7] == 'o'
    &&& s[i + 8] == 'p'
    &&& s[i + 9] == '/'
}

/// `n` uppercase hexadecimal characters start at position `i`.
pub open spec fn hex_run_at(s: Seq<char>, i: int, n: int) -> bool {
    &&& 0 <= i
    &&& i + n <= s.len()
    &&& forall|j: int| i <= j < i + n ==> is_upper_hex(#[trigger] s[j])
}

/// A full URL identifier occurrence starts at position `i`: the path marker
/// followed by 16 uppercase hexadecimal characters.
pub open spec fn url_id_match_at(s: Seq<char>, i: int) -> bool {
    url_marker_at(s, i) && hex_run_at(s, i + 10, 16)
}

/// The position of the leftmost URL identifier occurrence at or after `i`.
pub open spec fn first_url_id_match_from(s: Seq<char>, i: int) -> Option<int>
    decreases s.len() - i,
{
    if i < 0 || i >= s.len() {
        None
    } else if url_id_match_at(s, i) {
        Some(i)
    } else {
        first_url_id_match_from(s, i + 1)
    }
}

/// What `extract_workshop_id_from_url` returns: the 16 characters after the
/// leftmost `/workshop/` marker that is followed by 16 uppercase hexadecimal
/// characters, if any.
pub open spec fn extract_id_from_url_spec(s: Seq<char>) -> Option<Seq<char>> {
    match first_url_id_match_from(s, 0) {
        Some(i) => Some(s.subrange(i + 10, i + 26)),
        None => None,
    }
}

proof fn lemma_first_url_match_found(s: Seq<char>, k: int, i: int)
    requires
        0 <= k <= i,
        url_id_match_at(s, i),
        forall|j: int| k <= j < i ==> !url_id_match_at(s, j),
    ensures
        first_url_id_match_from(s, k) == Some(i),
    decreases i - k,
{
    if k < i {
        lemma_first_url_match_found(s, k + 1, i);
    }
}

proof fn lemma_first_url_match_none(s: Seq<char>, k: int)
    requires
        0 <= k,
        forall|j: int| k <= j < s.len() ==> !url_id_match_at(s, j),
    ensures
        first_url_id_match_from(s, k) is None,
    decreases s.len() - k,
{
    if k < s.len() {
        lemma_first_url_match_none(s, k + 1);
    }
}

pub(crate) fn url_marker_check(v: &Vec<char>, i: usize) -> (r: bool)
    requires
        i + 10 <= v.len(),
    ensures
        r == url_marker_at(v@, i as int),
{
    v[i] == '/' && v[i + 1] == 'w' && v[i + 2] == 'o' && v[i + 3] == 'r' && v[i + 4] == 'k'
        && v[i + 5] == 's' && v[i + 6] == 'h' && v[i + 7] == 'o' && v[i + 8] == 'p'
        && v[i + 9] == '/'
}

pub(crate) fn hex_run_check(v: &Vec<char>, i: usize, n: usize) -> (r: bool)
    requires
        i + n <= v.len(),
    ensures
        r == hex_run_at(v@, i as int, n as int),
{
    let mut j: usize = 0;
    while j < n
        invariant
            j <= n,
            i + n <= v.len(),
            forall|k: int| i <= k < i + j ==> is_upper_hex(#[trigger] v@[k]),
        decreases n - j,
    {
        if !upper_hex(v[i + j]) {
            return false;
        }
        j += 1;
    }
    true
}

/// Returns the identifier embedded in a workshop URL: the 16 uppercase
/// hexadecimal characters after the leftmost `/workshop/` path marker that
/// is followed by such a run, or `None` if the URL contains none.
pub fn extract_workshop_id_from_url(url: &str) -> (r: Option<String>)
    ensures
        match r {
            Some(id) => extract_id_from_url_spec(url@) == Some(id@),
            None => extract_id_from_url_spec(url@) is None,
        },
{
    let v = chars_of(url);
    let n = v.len();
    if n < 26 {
        proof {
            lemma_first_url_match_none(url@, 0);
        }
        return None;
    }
    let mut i: usize = 0;
    while i <= n - 26
        invariant
            v@ == url@,
            n == v@.len(),
            26 <= n,
            i <= n - 25,
            forall|j: int| 0 <= j < i ==> !url_id_match_at(url@, j),
        decreases n - i,
    {
        if url_marker_check(&v, i) && hex_run_check(&v, i + 10, 16) {
            proof {
                lemma_first_url_match_found(url@, 0, i as int);
            }
            let id = url.substring_char(i + 10, i + 26).to_owned();
            return Some(id);
        }
        i += 1;
    }
    proof {
        lemma_first_url_match_none(url@, 0);
    }
    None
}

/// The end of the whitespace run that starts at position `j`.
pub open spec fn space_run_end(s: Seq<char>, j: int) -> int
    decreases s.len() - j,
{
    if j < 0 || j >= s.len() {
        j
    } else if is_space(s[j]) {
        space_run_end(s, j + 1)
    } else {
        j
    }
}

pub(crate) proof fn lemma_space_run_end_bounds_pub(s: Seq<char>, j: int)
    requires
        0 <= j <= s.len(),
    ensures
        j <= space_run_end(s, j) <= s.len(),
    decreases s.len() - j,
{
    if j < s.len() && is_space(s[j]) {
        lemma_space_run_end_bounds_pub(s, j + 1);
    }
}

/// An `ID` label occurrence starts at position `i`: the two letters with a
/// word boundary before them, at least one whitespace character, 16
/// uppercase hexadecimal characters, and a word boundary after them.
pub open spec fn label_id_match_at(s: Seq<char>, i: int) -> bool {
    let w = space_run_end(s, i + 2);
    &&& 0 <= i
    &&& i + 2 <= s.len()
    &&& (i == 0 || !is_ascii_word(s[i - 1]))
    &&& s[i] == 'I'
    &&& s[i + 1] == 'D'
    &&& w > i + 2
    &&& hex_run_at(s, w, 16)
    &&& (w + 16 == s.len() || !is_ascii_word(s[w + 16]))
}

/// The position of the leftmost `ID` label occurrence at or after `i`.
pub open spec fn first_label_id_match_from(s: Seq<char>, i: int) -> Option<int>
    decreases s.len() - i,
{
    if i < 0 || i >= s.len() {
        None
    } else if label_id_match_at(s, i) {
        Some(i)
    } else {
        first_label_id_match_from(s, i + 1)
    }
}

/// What `extract_workshop_id_from_html` returns: the 16 characters after the
/// whitespace of the leftmost `ID` label occurrence, if any.
pub open spec fn extract_id_from_html_spec(s: Seq<char>) -> Option<Seq<char>> {
    match first_label_id_match_from(s, 0) {
        Some(i) => {
            let w = space_run_end(s, i + 2);
            Some(s.subrange(w, w + 16))
        },
        None => None,
    }
}

proof fn lemma_first_label_match_found(s: Seq<char>, k: int, i: int)
    requires
        0 <= k <= i,
        label_id_match_at(s, i),
        forall|j: int| k <= j < i ==> !label_id_match_at(s, j),
    ensures
        first_label_id_match_from(s, k) == Some(i),
    decreases i - k,
{
    if k < i {
        lemma_first_label_match_found(s, k + 1, i);
    }
}

proof fn lemma_first_label_match_none(s: Seq<char>, k: int)
    requires
        0 <= k,
        forall|j: int| k <= j < s.len() ==> !label_id_match_at(s, j),
    ensures
        first_label_id_match_from(s, k) is None,
    decreases s.len() - k,
{
    if k < s.len() {
        lemma_first_label_match_none(s, k + 1);
    }
}

pub(crate) fn space_char(c: char) -> (r: bool)
    ensures
        r == is_space(c),
{
    c == ' ' || c == '\t' || c == '\n' || c == '\r' || c == '\u{b}' || c == '\u{c}'
}

fn word_char(c: char) -> (r: bool)
    ensures
        r == is_ascii_word(c),
{
    ('0' <= c && c <= '9') || ('A' <= c && c <= 'Z') || ('a' <= c && c <= 'z') || c == '_'
}

pub(crate) fn space_run_end_check(v: &Vec<char>, j: usize) -> (r: usize)
    requires
        j <= v.len(),
    ensures
        r as int == space_run_end(v@, j as int),
        j <= r <= v@.len(),
{
    let mut k: usize = j;
    while k < v.len() && space_char(v[k])
        invariant
            j <= k <= v@.len(),
            space_run_end(v@, j as int) == space_run_end(v@, k as int),
        decreases v@.len() - k,
    {
        k += 1;
    }
    k
}

fn label_match_check(v: &Vec<char>, i: usize) -> (r: bool)
    requires
        i < v.len(),
    ensures
        r == label_id_match_at(v@, i as int),
{
    if v.len() - i < 2 {
        return false;
    }
    if !(v[i] == 'I' && v[i + 1] == 'D') {
        return false;
    }
    if i > 0 && word_char(v[i - 1]) {
        return false;
    }
    let w = space_run_end_check(v, i + 2);
    if w == i + 2 {
        return false;
    }
    if v.len() - w < 16 {
        proof {
            assert(!hex_run_at(v@, w as int, 16));
        }
        return false;
    }
    if !hex_run_check(v, w, 16) {
        return false;
    }
    if w + 16 < v.len() && word_char(v[w + 16]) {
        return false;
    }
    true
}

/// Returns the identifier advertised in raw page text by an `ID` label:
/// the 16 uppercase hexadecimal characters after the leftmost whitespace-
/// separated `ID` label with word boundaries on both sides, or `None`.
pub fn extract_workshop_id_from_html(html: &str) -> (r: Option<String>)
    ensures
        match r {
            Some(id) => extract_id_from_html_spec(html@) == Some(id@),
            None => extract_id_from_html_spec(html@) is None,
        },
{
    let v = chars_of(html);
    let n = v.len();
    let mut i: usize = 0;
    while i < n
        invariant
            v@ == html@,
            n == v@.len(),
            i <= n,
            forall|j: int| 0 <= j < i ==> !label_id_match_at(html@, j),
        decreases n - i,
    {
        if label_match_check(&v, i) {
            proof {
                lemma_first_label_match_found(html@, 0, i as int);
                lemma_space_run_end_bounds_pub(html@, i as int + 2);
            }
            let w = space_run_end_check(&v, i + 2);
            let id = html.substring_char(w, w + 16).to_owned();
            return Some(id);
        }
        i += 1;
    }
    proof {
        lemma_first_label_match_none(html@, 0);
    }
    None
}

/// For every 16-character uppercase hexadecimal identifier and every slug,
/// the URL formed from the platform origin, the `/workshop/` path marker,
/// the identifier, a dash, and the slug yields exactly that identifier.
pub proof fn lemma_extract_id_roundtrip(ident: Seq<char>, slug: Seq<char>)
    requires
        ident.len() == 16,
        forall|j: int| 0 <= j < 16 ==> is_upper_hex(#[trigger] ident[j]),
    ensures
        extract_id_from_url_spec(
            ("https://reforger.armaplatform.com")@ + ("/workshop/")@ + ident + ("-")@ + slug,
        ) == Some(ident),
{
    reveal_strlit("https://reforger.armaplatform.com");
    reveal_strlit("/workshop/");
    reveal_strlit("-");
    let s = ("https://reforger.armaplatform.com")@ + ("/workshop/")@ + ident + ("-")@ + slug;
    assert(url_id_match_at(s, 33)) by {
        assert(forall|j: int| 43 <= j < 59 ==> s[j] == ident[j - 43]);
    };
    assert forall|j: int| 0 <= j < 33 implies !url_id_match_at(s, j) by {
        if s[j] == '/' {
            assert(j == 6 || j == 7);
        }
        assert(!url_marker_at(s, j));
    };
    lemma_first_url_match_found(s, 0, 33);
    assert(s.subrange(43, 59) =~= ident);
}

} // verus!
