//! Extraction of scenario identifiers from the companion scenarios page.
//!
//! A scenario identifier is a brace-wrapped 16-character uppercase
//! hexadecimal identifier followed by a `Missions/` path that ends in
//! `.conf`. The page is scanned for non-overlapping occurrences, leftmost
//! first and greedy in the path, and the result keeps the first occurrence
//! of every distinct entry. The scan is only attempted when the page text
//! holds the literal `Scenario ID` marker. The whitespace that ends a
//! mission path is the ASCII whitespace.

use vstd::prelude::*;
use crate::chars::chars_of;
use crate::dedup::dedup_first;
use crate::dedup::dedupe_preserve_order;
use crate::ids::hex_run_at;
use crate::ids::is_space;
use crate::upper_hex;

verus! {

broadcast use vstd::string::group_string_axioms;

/// A character that may appear in the mission path: anything but
/// whitespace, double quotes, and angle brackets.
pub open spec fn is_path_char(c: char) -> bool {
    !is_space(c) && c != '"' && c != '<' && c != '>'
}

/// The nine characters of `Missions/` start at position `i`.
pub open spec fn missions_at(s: Seq<char>, i: int) -> bool {
    &&& 0 <= i
    &&& i + 9 <= s.len()
    &&& s[i] == 'M'
    &&& s[i + 1] == 'i'
    &&& s[i + 2] == 's'
    &&& s[i + 3] == 's'
    &&& s[i + 4] == 'i'
    &&& s[i + 5] == 'o'
    &&& s[i + 6] == 'n'
    &&& s[i + 7] == 's'
    &&& s[i + 8] == '/'
}

/// The five characters of `.conf` start at position `i`.
pub open spec fn conf_at(s: Seq<char>, i: int) -> bool {
    &&& 0 <= i
    &&& i + 5 <= s.len()
    &&& s[i] == '.'
    &&& s[i + 1] == 'c'
    &&& s[i + 2] == 'o'
    &&& s[i + 3] == 'n'
    &&& s[i + 4] == 'f'
}

/// The end of the maximal run of path characters starting at `j`.
pub open spec fn path_run_end(s: Seq<char>, j: int) -> int
    decreases s.len() - j,
{
    if j < 0 || j >= s.len() {
        j
    } else if is_path_char(s[j]) {
        path_run_end(s, j + 1)
    } else {
        j
    }
}

/// The start of the rightmost `.conf` occurrence that begins at or after
/// `lo` and ends at or before `hi`; the greedy path match ends there.
pub open spec fn last_conf_start(s: Seq<char>, lo: int, hi: int) -> Option<int>
    decreases hi - lo,
{
    if hi - 5 < lo {
        None
    } else if conf_at(s, hi - 5) {
        Some(hi - 5)
    } else {
        last_conf_start(s, lo, hi - 1)
    }
}

/// A scenario identifier occurrence starts at position `i`: an opening
/// brace, 16 uppercase hexadecimal characters, a closing brace,
/// `Missions/`, at least one path character, and a final `.conf` inside
/// the maximal path-character run.
pub open spec fn scen_match_at(s: Seq<char>, i: int) -> bool {
    &&& 0 <= i
    &&& i + 27 <= s.len()
    &&& s[i] == '{'
    &&& hex_run_at(s, i + 1, 16)
    &&& s[i + 17] == '}'
    &&& missions_at(s, i + 18)
    &&& last_conf_start(s, i + 28, path_run_end(s, i + 27)) is Some
}

/// The position one past a scenario occurrence that starts at `i`.
pub open spec fn scen_match_end(s: Seq<char>, i: int) -> int {
    last_conf_start(s, i + 28, path_run_end(s, i + 27))->Some_0 + 5
}

proof fn lemma_path_run_end_bounds(s: Seq<char>, j: int)
    requires
        0 <= j <= s.len(),
    ensures
        j <= path_run_end(s, j) <= s.len(),
    decreases s.len() - j,
{
    if j < s.len() && is_path_char(s[j]) {
        lemma_path_run_end_bounds(s, j + 1);
    }
}

proof fn lemma_last_conf_start_bounds(s: Seq<char>, lo: int, hi: int)
    requires
        last_conf_start(s, lo, hi) is Some,
    ensures
        lo <= last_conf_start(s, lo, hi)->Some_0,
        last_conf_start(s, lo, hi)->Some_0 + 5 <= hi,
        conf_at(s, last_conf_start(s, lo, hi)->Some_0),
    decreases hi - lo,
{
    if !(hi - 5 < lo) && !conf_at(s, hi - 5) {
        lemma_last_conf_start_bounds(s, lo, hi - 1);
    }
}

proof fn lemma_scen_match_end_bounds(s: Seq<char>, i: int)
    requires
        scen_match_at(s, i),
    ensures
        i + 33 <= scen_match_end(s, i) <= s.len(),
{
    lemma_path_run_end_bounds(s, i + 27);
    lemma_last_conf_start_bounds(s, i + 28, path_run_end(s, i + 27));
}

/// The scenario occurrences of `s` at or after position `i`, leftmost
/// first, each scan resuming where the previous occurrence ended.
pub open spec fn scenario_matches_from(s: Seq<char>, i: int) -> Seq<Seq<char>>
    decreases s.len() - i,
{
    if i < 0 || i >= s.len() {
        Seq::empty()
    } else if scen_match_at(s, i) {
        let e = scen_match_end(s, i);
        if i < e <= s.len() {
            seq![s.subrange(i, e)] + scenario_matches_from(s, e)
        } else {
            Seq::empty()
        }
    } else {
        scenario_matches_from(s, i + 1)
    }
}

/// All scenario occurrences of `s`, in scan order, duplicates included.
pub open spec fn scenario_matches(s: Seq<char>) -> Seq<Seq<char>> {
    scenario_matches_from(s, 0)
}

/// The eleven characters of the `Scenario ID` marker start at position `i`.
pub open spec fn scenario_marker_at(s: Seq<char>, i: int) -> bool {
    &&& 0 <= i
    &&& i + 11 <= s.len()
    &&& s[i] == 'S'
    &&& s[i + 1] == 'c'
    &&& s[i + 2] == 'e'
    &&& s[i + 3] == 'n'
    &&& s[i + 4] == 'a'
    &&& s[i + 5] == 'r'
    &&& s[i + 6] == 'i'
    &&& s[i + 7] == 'o'
    &&& s[i + 8] == ' '
    &&& s[i + 9] == 'I'
    &&& s[i + 10] == 'D'
}

/// The page text holds the literal `Scenario ID` marker somewhere.
pub open spec fn has_scenario_marker(s: Seq<char>) -> bool {
    exists|i: int| scenario_marker_at(s, i)
}

pub(crate) fn conf_check(v: &Vec<char>, i: usize) -> (r: bool)
    requires
        i + 5 <= v.len(),
    ensures
        r == conf_at(v@, i as int),
{
    v[i] == '.' && v[i + 1] == 'c' && v[i + 2] == 'o' && v[i + 3] == 'n' && v[i + 4] == 'f'
}

pub(crate) fn missions_check(v: &Vec<char>, i: usize) -> (r: bool)
    requires
        i + 9 <= v.len(),
    ensures
        r == missions_at(v@, i as int),
{
    v[i] == 'M' && v[i + 1] == 'i' && v[i + 2] == 's' && v[i + 3] == 's' && v[i + 4] == 'i'
        && v[i + 5] == 'o' && v[i + 6] == 'n' && v[i + 7] == 's' && v[i + 8] == '/'
}

fn path_char(c: char) -> (r: bool)
    ensures
        r == is_path_char(c),
{
    !(c == ' ' || c == '\t' || c == '\n' || c == '\r' || c == '\u{b}' || c == '\u{c}') && c != '"'
        && c != '<' && c != '>'
}

fn path_run_end_check(v: &Vec<char>, j: usize) -> (r: usize)
    requires
        j <= v.len(),
    ensures
        r as int == path_run_end(v@, j as int),
        j <= r <= v.len(),
{
    let mut k: usize = j;
    while k < v.len() && path_char(v[k])
        invariant
            j <= k <= v.len(),
            path_run_end(v@, j as int) == path_run_end(v@, k as int),
        decreases v.len() - k,
    {
        k += 1;
    }
    k
}

fn last_conf_start_check(v: &Vec<char>, lo: usize, hi: usize) -> (r: Option<usize>)
    requires
        hi <= v.len(),
    ensures
        match r {
            Some(p) => last_conf_start(v@, lo as int, hi as int) == Some(p as int) && lo <= p && p
                + 5 <= hi,
            None => last_conf_start(v@, lo as int, hi as int) is None,
        },
{
    let mut h: usize = hi;
    while h >= 5 && h - 5 >= lo
        invariant
            h <= hi <= v.len(),
            last_conf_start(v@, lo as int, hi as int) == last_conf_start(v@, lo as int, h as int),
        decreases h,
    {
        if conf_check(v, h - 5) {
            return Some(h - 5);
        }
        h -= 1;
    }
    None
}

fn scen_match_check(v: &Vec<char>, i: usize) -> (r: Option<usize>)
    requires
        i < v.len(),
    ensures
        match r {
            Some(e) => scen_match_at(v@, i as int) && e as int == scen_match_end(v@, i as int) && i
                < e <= v.len(),
            None => !scen_match_at(v@, i as int),
        },
{
    if v.len() - i < 33 {
        proof {
            if scen_match_at(v@, i as int) {
                lemma_scen_match_end_bounds(v@, i as int);
            }
        }
        return None;
    }
    if v[i] != '{' {
        return None;
    }
    if !crate::ids::hex_run_check(v, i + 1, 16) {
        return None;
    }
    if v[i + 17] != '}' {
        return None;
    }
    if !missions_check(v, i + 18) {
        return None;
    }
    let run_end = path_run_end_check(v, i + 27);
    match last_conf_start_check(v, i + 28, run_end) {
        Some(p) => Some(p + 5),
        None => None,
    }
}

/// Scans the page text for all scenario occurrences, in order, duplicates
/// included.
fn scan_scenarios(html: &str, v: &Vec<char>) -> (r: Vec<String>)
    requires
        v@ == html@,
    ensures
        r@.map_values(|x: String| x@) == scenario_matches(html@),
{
    let mut r: Vec<String> = Vec::new();
    let n = v.len();
    let mut i: usize = 0;
    while i < n
        invariant
            v@ == html@,
            n == v.len(),
            i <= n,
            scenario_matches(html@) == r@.map_values(|x: String| x@) + scenario_matches_from(
                html@,
                i as int,
            ),
        decreases n - i,
    {
        let ghost before = r@.map_values(|x: String| x@);
        match scen_match_check(v, i) {
            Some(e) => {
                let m = html.substring_char(i, e).to_owned();
                r.push(m);
                proof {
                    assert(r@.map_values(|x: String| x@) =~= before.push(
                        html@.subrange(i as int, e as int),
                    ));
                    assert(seq![html@.subrange(i as int, e as int)] + scenario_matches_from(
                        html@,
                        e as int,
                    ) =~= scenario_matches_from(html@, i as int));
                    assert(before.push(html@.subrange(i as int, e as int))
                        + scenario_matches_from(html@, e as int) =~= before
                        + scenario_matches_from(html@, i as int));
                }
                i = e;
            },
            None => {
                i += 1;
            },
        }
    }
    proof {
        assert(r@.map_values(|x: String| x@) + scenario_matches_from(html@, n as int) =~= r@
            .map_values(|x: String| x@));
    }
    r
}

fn scenario_marker_check(v: &Vec<char>, i: usize) -> (r: bool)
    requires
        i + 11 <= v.len(),
    ensures
        r == scenario_marker_at(v@, i as int),
{
    v[i] == 'S' && v[i + 1] == 'c' && v[i + 2] == 'e' && v[i + 3] == 'n' && v[i + 4] == 'a'
        && v[i + 5] == 'r' && v[i + 6] == 'i' && v[i + 7] == 'o' && v[i + 8] == ' '
        && v[i + 9] == 'I' && v[i + 10] == 'D'
}

fn has_scenario_marker_check(v: &Vec<char>) -> (r: bool)
    ensures
        r == has_scenario_marker(v@),
{
    let n = v.len();
    if n < 11 {
        return false;
    }
    let mut i: usize = 0;
    while i <= n - 11
        invariant
            n == v.len(),
            11 <= n,
            i <= n - 10,
            forall|j: int| 0 <= j < i ==> !scenario_marker_at(v@, j),
        decreases n - i,
    {
        if scenario_marker_check(v, i) {
            return true;
        }
        i += 1;
    }
    false
}

/// Returns the scenario identifiers advertised on a scenarios page: the
/// non-overlapping scenario occurrences of the text, first occurrence of
/// each distinct entry, in scan order. A page without the literal
/// `Scenario ID` marker yields the empty list, whatever else it holds.
pub fn parse_scenarios_page(html: &str) -> (r: Vec<String>)
    ensures
        has_scenario_marker(html@) ==> r@.map_values(|x: String| x@) == dedup_first(
            scenario_matches(html@),
        ),
        !has_scenario_marker(html@) ==> r@.len() == 0,
{
    let v = chars_of(html);
    if !has_scenario_marker_check(&v) {
        return Vec::new();
    }
    let matches = scan_scenarios(html, &v);
    dedupe_preserve_order(matches)
}

/// The scenario list of a page has no duplicate entries, and its entries
/// stand in the order of their first occurrences in the scan.
pub proof fn lemma_scenario_list_properties(html: Seq<char>)
    ensures
        ({
            let scans = scenario_matches(html);
            let list = dedup_first(scans);
            &&& forall|i: int, j: int| 0 <= i < j < list.len() ==> list[i] != list[j]
            &&& forall|i: int, j: int|
                0 <= i < j < list.len() ==> crate::dedup::first_index_of(scans, list[i])
                    < crate::dedup::first_index_of(scans, list[j])
        }),
{
    crate::dedup::lemma_dedup_first_no_duplicates(scenario_matches(html));
    crate::dedup::lemma_dedup_first_order(scenario_matches(html));
}

} // verus!
