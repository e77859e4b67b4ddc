//! Small services around profiles and mod lists: input parsing, list
//! selection, display helpers.
//!
//! Whitespace handling in this module is over the ASCII whitespace
//! characters.

use vstd::prelude::*;
use crate::chars::chars_of;
use crate::chars::str_eq;
use crate::ids::extract_id_from_url_spec;
use crate::ids::is_space;
use crate::ids::space_run_end;
use crate::ids::url_marker_at;
use crate::is_upper_hex;
use crate::scenarios::conf_at;
use crate::scenarios::missions_at;

verus! {

broadcast use vstd::string::group_string_axioms;

/// One position before `j` at a time, past the whitespace run that ends
/// at `j`: where trimming from the right stops.
pub open spec fn trim_end_idx(s: Seq<char>, j: int) -> int
    decreases j,
{
    if j <= 0 {
        0
    } else if is_space(s[j - 1]) {
        trim_end_idx(s, j - 1)
    } else {
        j
    }
}

/// `s` without its leading and trailing whitespace.
pub open spec fn trim_spec(s: Seq<char>) -> Seq<char> {
    let a = space_run_end(s, 0);
    let b = trim_end_idx(s, s.len() as int);
    if a <= b {
        s.subrange(a, b)
    } else {
        Seq::empty()
    }
}

proof fn lemma_trim_end_idx_bounds(s: Seq<char>, j: int)
    requires
        0 <= j <= s.len(),
    ensures
        0 <= trim_end_idx(s, j) <= j,
    decreases j,
{
    if j > 0 && is_space(s[j - 1]) {
        lemma_trim_end_idx_bounds(s, j - 1);
    }
}

/// Returns `s` without its leading and trailing whitespace.
pub fn trim_str(s: &str) -> (r: String)
    ensures
        r@ == trim_spec(s@),
{
    let v = chars_of(s);
    let n = v.len();
    let a = crate::ids::space_run_end_check(&v, 0);
    let mut b: usize = n;
    while b > 0 && crate::ids::space_char(v[b - 1])
        invariant
            v@ == s@,
            n == v.len(),
            b <= n,
            trim_end_idx(s@, n as int) == trim_end_idx(s@, b as int),
        decreases b,
    {
        b -= 1;
    }
    if a <= b {
        s.substring_char(a, b).to_owned()
    } else {
        String::new()
    }
}

/// `s` holds at least one character that is not whitespace.
pub open spec fn has_non_space(s: Seq<char>) -> bool {
    exists|i: int| 0 <= i < s.len() && !is_space(s[i])
}

proof fn lemma_trim_empty_iff_all_space(s: Seq<char>)
    ensures
        trim_spec(s).len() == 0 <==> !has_non_space(s),
{
    let a = space_run_end(s, 0);
    lemma_space_run_prefix(s, 0);
    crate::ids::lemma_space_run_end_bounds_pub(s, 0);
    lemma_trim_end_idx_bounds(s, s.len() as int);
    let b = trim_end_idx(s, s.len() as int);
    if a < b {
        assert(!is_space(s[a]));
        assert(has_non_space(s));
    } else {
        if has_non_space(s) {
            let i = choose|i: int| 0 <= i < s.len() && !is_space(s[i]);
            assert(a <= i) by {
                if i < a {
                    assert(is_space(s[i]));
                }
            };
            lemma_trim_end_suffix(s, s.len() as int, i);
            assert(false);
        }
    }
}

proof fn lemma_space_run_prefix(s: Seq<char>, j: int)
    requires
        0 <= j <= s.len(),
    ensures
        forall|t: int| j <= t < space_run_end(s, j) ==> is_space(#[trigger] s[t]),
        space_run_end(s, j) < s.len() ==> !is_space(s[space_run_end(s, j)]),
    decreases s.len() - j,
{
    if j < s.len() && is_space(s[j]) {
        lemma_space_run_prefix(s, j + 1);
    }
}

proof fn lemma_trim_end_suffix(s: Seq<char>, j: int, i: int)
    requires
        0 <= j <= s.len(),
        trim_end_idx(s, j) <= i < j,
    ensures
        is_space(s[i]),
    decreases j,
{
    if j > 0 && is_space(s[j - 1]) {
        if i < j - 1 {
            lemma_trim_end_suffix(s, j - 1, i);
        }
    }
}

/// A lowercase hexadecimal digit.
pub open spec fn is_lower_hex(c: char) -> bool {
    'a' <= c && c <= 'f'
}

/// What `parse_mod_id_input` accepts: a URL that carries a `/workshop/`
/// path marker yields its embedded identifier; a bare identifier of
/// exactly 16 hexadecimal characters of either case passes through; all
/// else is rejected. The input is trimmed first.
pub open spec fn mod_id_input_spec(s: Seq<char>) -> Option<Seq<char>> {
    let t = trim_spec(s);
    if exists|i: int| url_marker_at(t, i) {
        extract_id_from_url_spec(t)
    } else if t.len() == 16 && (forall|i: int|
        0 <= i < 16 ==> is_upper_hex(#[trigger] t[i]) || is_lower_hex(t[i])) {
        Some(t)
    } else {
        None
    }
}

fn has_url_marker(v: &Vec<char>) -> (r: bool)
    ensures
        r == exists|i: int| url_marker_at(v@, i),
{
    let n = v.len();
    if n < 10 {
        return false;
    }
    let mut i: usize = 0;
    while i <= n - 10
        invariant
            n == v.len(),
            10 <= n,
            i <= n - 9,
            forall|j: int| 0 <= j < i ==> !url_marker_at(v@, j),
        decreases n - i,
    {
        if crate::ids::url_marker_check(v, i) {
            return true;
        }
        i += 1;
    }
    false
}

/// Parses one mod identifier from free-form input: a workshop URL yields
/// the identifier embedded in it, a bare 16-character hexadecimal
/// identifier passes through, anything else is rejected.
pub fn parse_mod_id_input(input: &str) -> (r: Option<String>)
    ensures
        match r {
            Some(id) => mod_id_input_spec(input@) == Some(id@),
            None => mod_id_input_spec(input@) is None,
        },
{
    let trimmed = trim_str(input);
    let v = chars_of(trimmed.as_str());
    if has_url_marker(&v) {
        return crate::ids::extract_workshop_id_from_url(trimmed.as_str());
    }
    if v.len() != 16 {
        return None;
    }
    let mut i: usize = 0;
    while i < 16
        invariant
            v@ == trimmed@,
            v.len() == 16,
            trimmed@ == trim_spec(input@),
            !(exists|j: int| url_marker_at(trimmed@, j)),
            i <= 16,
            forall|j: int|
                0 <= j < i ==> is_upper_hex(#[trigger] v@[j]) || is_lower_hex(v@[j]),
        decreases 16 - i,
    {
        let c = v[i];
        if !(('0' <= c && c <= '9') || ('A' <= c && c <= 'F') || ('a' <= c && c <= 'f')) {
            return None;
        }
        i += 1;
    }
    Some(trimmed)
}

/// The first separator position at or after `i`: a newline always, a
/// comma when `comma` separates too; the length when none remains.
pub open spec fn next_sep(s: Seq<char>, i: int, comma: bool) -> int
    decreases s.len() - i,
{
    if i < 0 || i >= s.len() {
        s.len() as int
    } else if s[i] == '\n' || (comma && s[i] == ',') {
        i
    } else {
        next_sep(s, i + 1, comma)
    }
}

/// The identifiers of `s` at or after position `i`: the text split at
/// separators, each piece trimmed, empty pieces dropped.
pub open spec fn id_tokens_from(s: Seq<char>, i: int, comma: bool) -> Seq<Seq<char>>
    decreases s.len() - i,
{
    if i < 0 || i > s.len() {
        Seq::empty()
    } else {
        let k = next_sep(s, i, comma);
        if i <= k <= s.len() {
            let piece = trim_spec(s.subrange(i, k));
            let head: Seq<Seq<char>> = if piece.len() > 0 {
                seq![piece]
            } else {
                Seq::empty()
            };
            if k < s.len() {
                head + id_tokens_from(s, k + 1, comma)
            } else {
                head
            }
        } else {
            Seq::empty()
        }
    }
}

fn next_sep_check(v: &Vec<char>, i: usize, comma: bool) -> (r: usize)
    requires
        i <= v.len(),
    ensures
        r as int == next_sep(v@, i as int, comma),
        i <= r <= v.len(),
{
    let n = v.len();
    let mut k: usize = i;
    while k < n && !(v[k] == '\n' || (comma && v[k] == ','))
        invariant
            n == v.len(),
            i <= k <= n,
            next_sep(v@, i as int, comma) == next_sep(v@, k as int, comma),
        decreases n - k,
    {
        k += 1;
    }
    k
}

fn split_clean_tokens(input: &str, comma: bool) -> (r: Vec<String>)
    ensures
        r@.map_values(|x: String| x@) == id_tokens_from(input@, 0, comma),
{
    let v = chars_of(input);
    let n = v.len();
    let mut r: Vec<String> = Vec::new();
    let mut pos: usize = 0;
    loop
        invariant_except_break
            id_tokens_from(input@, 0, comma) == r@.map_values(|x: String| x@)
                + id_tokens_from(input@, pos as int, comma),
        invariant
            v@ == input@,
            n == v.len(),
            pos <= n,
        ensures
            r@.map_values(|x: String| x@) == id_tokens_from(input@, 0, comma),
        decreases n - pos,
    {
        let ghost before = r@.map_values(|x: String| x@);
        let k = next_sep_check(&v, pos, comma);
        let piece = trim_str(input.substring_char(pos, k));
        let ghost head = id_tokens_from(input@, pos as int, comma);
        if !piece.as_str().is_empty() {
            r.push(piece);
            proof {
                assert(r@.map_values(|x: String| x@) =~= before.push(
                    trim_spec(input@.subrange(pos as int, k as int)),
                ));
            }
        }
        proof {
            if k < n {
                assert(before + head =~= r@.map_values(|x: String| x@) + id_tokens_from(
                    input@,
                    k as int + 1,
                    comma,
                ));
            } else {
                assert(before + head =~= r@.map_values(|x: String| x@));
            }
        }
        if k == n {
            break ;
        }
        pos = k + 1;
    }
    r
}

/// Splits free-form input into mod identifiers: lines and comma-separated
/// entries, trimmed, empty entries dropped.
pub fn parse_mod_ids(input: &str) -> (r: Vec<String>)
    ensures
        r@.map_values(|x: String| x@) == id_tokens_from(input@, 0, true),
{
    split_clean_tokens(input, true)
}

/// Splits free-form input into scenario identifiers: one per line,
/// trimmed, empty lines dropped.
pub fn parse_scenario_ids(input: &str) -> (r: Vec<String>)
    ensures
        r@.map_values(|x: String| x@) == id_tokens_from(input@, 0, false),
{
    split_clean_tokens(input, false)
}

/// Trims an optional path input: whitespace-only input is no path at all.
pub fn normalize_optional_path(input: &str) -> (r: Option<String>)
    ensures
        match r {
            Some(t) => t@ == trim_spec(input@) && t@.len() > 0,
            None => trim_spec(input@).len() == 0,
        },
{
    let trimmed = trim_str(input);
    if trimmed.as_str().is_empty() {
        None
    } else {
        Some(trimmed)
    }
}

/// Picks the override when it holds any visible character, else the
/// fallback.
pub fn effective_value<'a>(override_value: &'a Option<String>, fallback: &'a str) -> (r: &'a str)
    ensures
        r@ == (match override_value {
            Some(v) => if has_non_space(v@) {
                v@
            } else {
                fallback@
            },
            None => fallback@,
        }),
{
    match override_value {
        Some(v) => {
            let trimmed = trim_str(v.as_str());
            proof {
                lemma_trim_empty_iff_all_space(v@);
            }
            if trimmed.as_str().is_empty() {
                fallback
            } else {
                v.as_str()
            }
        },
        None => fallback,
    }
}

/// Applies one selection action to a list of identifiers: `add` appends
/// the identifier unless it is already present, `remove` drops every
/// occurrence, any other action leaves the list as it is.
pub fn update_list_selection(current: Option<Vec<String>>, action: &str, item_id: &str) -> (r: Vec<
    String,
>)
    ensures
        ({
            let base = match current {
                Some(v) => v@.map_values(|x: String| x@),
                None => Seq::<Seq<char>>::empty(),
            };
            &&& action@ == ("add")@ ==> r@.map_values(|x: String| x@) == (if base.contains(
                item_id@,
            ) {
                base
            } else {
                base.push(item_id@)
            })
            &&& action@ == ("remove")@ ==> r@.map_values(|x: String| x@) == base.filter(
                |u: Seq<char>| u != item_id@,
            )
            &&& (action@ != ("add")@ && action@ != ("remove")@) ==> r@.map_values(|x: String| x@)
                == base
        }),
{
    let mut selected = match current {
        Some(v) => v,
        None => Vec::new(),
    };
    proof {
        assert(match current {
            Some(v) => v@.map_values(|x: String| x@),
            None => Seq::<Seq<char>>::empty(),
        } =~= selected@.map_values(|x: String| x@));
    }
    proof {
        reveal_strlit("add");
        reveal_strlit("remove");
        assert(("add")@.len() != ("remove")@.len());
    }
    if str_eq(action, "add") {
        crate::dedup::push_unique(&mut selected, item_id.to_owned());
        selected
    } else if str_eq(action, "remove") {
        let ghost base = selected@.map_values(|x: String| x@);
        let ghost pred = |u: Seq<char>| u != item_id@;
        let mut kept: Vec<String> = Vec::new();
        let n = selected.len();
        let mut k: usize = 0;
        while k < n
            invariant
                n == selected.len(),
                k <= n,
                base == selected@.map_values(|x: String| x@),
                pred == (|u: Seq<char>| u != item_id@),
                kept@.map_values(|x: String| x@) == base.take(k as int).filter(pred),
            decreases n - k,
        {
            let ghost before = kept@.map_values(|x: String| x@);
            if !str_eq(selected[k].as_str(), item_id) {
                kept.push(selected[k].clone());
                proof {
                    assert(kept@.map_values(|x: String| x@) =~= before.push(base[k as int]));
                }
            }
            proof {
                reveal(Seq::filter);
                let t1 = base.take(k as int + 1);
                assert(t1.drop_last() =~= base.take(k as int));
                assert(t1.last() == base[k as int]);
                assert(t1.drop_last().filter(pred) == base.take(k as int).filter(pred));
                if pred(base[k as int]) {
                    assert(t1.filter(pred) == base.take(k as int).filter(pred).push(
                        base[k as int],
                    ));
                } else {
                    assert(t1.filter(pred) == base.take(k as int).filter(pred));
                }
            }
            k += 1;
        }
        proof {
            reveal(Seq::filter);
            assert(base.take(n as int) =~= base);
            assert(kept@.map_values(|x: String| x@) == base.filter(
                |u: Seq<char>| u != item_id@,
            ));
            assert(base == (match current {
                Some(v) => v@.map_values(|x: String| x@),
                None => Seq::<Seq<char>>::empty(),
            }));
        }
        kept
    } else {
        selected
    }
}

/// Where the display name of a scenario path starts and ends: after the
/// first `Missions/` marker, with a trailing `.conf` stripped.
pub open spec fn first_missions_from(s: Seq<char>, i: int) -> Option<int>
    decreases s.len() - i,
{
    if i < 0 || i >= s.len() {
        None
    } else if missions_at(s, i) {
        Some(i)
    } else {
        first_missions_from(s, i + 1)
    }
}

/// What `scenario_display_name` returns: the text after the first
/// `Missions/` marker, a trailing `.conf` stripped; nothing when the
/// marker is absent or nothing follows it.
pub open spec fn scenario_display_name_spec(s: Seq<char>) -> Option<Seq<char>> {
    match first_missions_from(s, 0) {
        Some(i) => {
            let rest = s.subrange(i + 9, s.len() as int);
            let name = if rest.len() >= 5 && conf_at(rest, rest.len() - 5) {
                rest.subrange(0, rest.len() - 5)
            } else {
                rest
            };
            if name.len() == 0 {
                None
            } else {
                Some(name)
            }
        },
        None => None,
    }
}

proof fn lemma_first_missions_found(s: Seq<char>, k: int, i: int)
    requires
        0 <= k <= i,
        missions_at(s, i),
        forall|j: int| k <= j < i ==> !missions_at(s, j),
    ensures
        first_missions_from(s, k) == Some(i),
    decreases i - k,
{
    if k < i {
        lemma_first_missions_found(s, k + 1, i);
    }
}

proof fn lemma_first_missions_none(s: Seq<char>, k: int)
    requires
        0 <= k,
        forall|j: int| k <= j < s.len() ==> !missions_at(s, j),
    ensures
        first_missions_from(s, k) is None,
    decreases s.len() - k,
{
    if k < s.len() {
        lemma_first_missions_none(s, k + 1);
    }
}

/// Returns the display name of a scenario path: what follows the first
/// `Missions/` marker, without a trailing `.conf`; nothing when no name
/// can be derived.
pub fn scenario_display_name(path: Option<&str>) -> (r: Option<String>)
    ensures
        match path {
            Some(p) => match r {
                Some(name) => scenario_display_name_spec(p@) == Some(name@),
                None => scenario_display_name_spec(p@) is None,
            },
            None => r is None,
        },
{
    match path {
        None => None,
        Some(p) => scenario_display_name_inner(p),
    }
}

fn scenario_display_name_inner(p: &str) -> (r: Option<String>)
    ensures
        match r {
            Some(name) => scenario_display_name_spec(p@) == Some(name@),
            None => scenario_display_name_spec(p@) is None,
        },
{
    let v = chars_of(p);
    let n = v.len();
    let mut i: usize = 0;
    while i < n
        invariant
            v@ == p@,
            n == v.len(),
            i <= n,
            forall|j: int| 0 <= j < i ==> !missions_at(p@, j),
        decreases n - i,
    {
        if n - i >= 9 && crate::scenarios::missions_check(&v, i) {
            proof {
                lemma_first_missions_found(p@, 0, i as int);
            }
            let rest_start = i + 9;
            let ghost rest = p@.subrange(rest_start as int, n as int);
            let stripped = n - rest_start >= 5 && crate::scenarios::conf_check(&v, n - 5);
            proof {
                assert(rest.len() == n - rest_start);
                if rest.len() >= 5 {
                    assert(rest[rest.len() - 5] == p@[n - 5]);
                    assert(rest[rest.len() - 4] == p@[n - 4]);
                    assert(rest[rest.len() - 3] == p@[n - 3]);
                    assert(rest[rest.len() - 2] == p@[n - 2]);
                    assert(rest[rest.len() - 1] == p@[n - 1]);
                    assert(conf_at(rest, rest.len() - 5) == conf_at(p@, n as int - 5));
                }
            }
            let end = if stripped {
                n - 5
            } else {
                n
            };
            if rest_start == end {
                proof {
                    if stripped {
                        assert(rest.subrange(0, rest.len() - 5) =~= Seq::<char>::empty());
                    } else {
                        assert(rest =~= Seq::<char>::empty());
                    }
                }
                return None;
            }
            let name = p.substring_char(rest_start, end).to_owned();
            proof {
                if stripped {
                    assert(name@ =~= rest.subrange(0, rest.len() - 5));
                } else {
                    assert(name@ =~= rest);
                }
            }
            return Some(name);
        }
        i += 1;
    }
    proof {
        lemma_first_missions_none(p@, 0);
    }
    None
}

/// The decimal digit character for `d`.
pub open spec fn dec_digit(d: int) -> char {
    if d == 0 {
        '0'
    } else if d == 1 {
        '1'
    } else if d == 2 {
        '2'
    } else if d == 3 {
        '3'
    } else if d == 4 {
        '4'
    } else if d == 5 {
        '5'
    } else if d == 6 {
        '6'
    } else if d == 7 {
        '7'
    } else if d == 8 {
        '8'
    } else {
        '9'
    }
}

/// The decimal rendering of a non-negative number, most significant digit
/// first.
pub open spec fn dec_str(n: int) -> Seq<char>
    decreases n,
{
    if n < 10 {
        seq![dec_digit(n)]
    } else {
        dec_str(n / 10).push(dec_digit(n % 10))
    }
}

fn append_digit(s: &mut String, d: u64)
    requires
        d < 10,
    ensures
        final(s)@ == old(s)@ + seq![dec_digit(d as int)],
{
    proof {
        reveal_strlit("0");
        reveal_strlit("1");
        reveal_strlit("2");
        reveal_strlit("3");
        reveal_strlit("4");
        reveal_strlit("5");
        reveal_strlit("6");
        reveal_strlit("7");
        reveal_strlit("8");
        reveal_strlit("9");
        assert(("0")@ =~= seq![dec_digit(0)]);
        assert(("1")@ =~= seq![dec_digit(1)]);
        assert(("2")@ =~= seq![dec_digit(2)]);
        assert(("3")@ =~= seq![dec_digit(3)]);
        assert(("4")@ =~= seq![dec_digit(4)]);
        assert(("5")@ =~= seq![dec_digit(5)]);
        assert(("6")@ =~= seq![dec_digit(6)]);
        assert(("7")@ =~= seq![dec_digit(7)]);
        assert(("8")@ =~= seq![dec_digit(8)]);
        assert(("9")@ =~= seq![dec_digit(9)]);
    }
    if d == 0 {
        s.append("0");
    } else if d == 1 {
        s.append("1");
    } else if d == 2 {
        s.append("2");
    } else if d == 3 {
        s.append("3");
    } else if d == 4 {
        s.append("4");
    } else if d == 5 {
        s.append("5");
    } else if d == 6 {
        s.append("6");
    } else if d == 7 {
        s.append("7");
    } else if d == 8 {
        s.append("8");
    } else {
        s.append("9");
    }
}

fn append_dec(s: &mut String, n: u64)
    ensures
        final(s)@ == old(s)@ + dec_str(n as int),
    decreases n,
{
    if n >= 10 {
        let ghost start = s@;
        append_dec(s, n / 10);
        append_digit(s, n % 10);
        proof {
            assert(s@ =~= start + dec_str(n as int / 10).push(dec_digit(n as int % 10)));
        }
    } else {
        append_digit(s, n);
    }
}

/// The elapsed seconds from `started_at` to `now`, zero when the clock
/// reads earlier than the start.
pub open spec fn elapsed_seconds(now: u64, started_at: u64) -> int {
    if now >= started_at {
        now - started_at
    } else {
        0
    }
}

/// The rendering of a duration of `total` seconds as hours, minutes and
/// seconds.
pub open spec fn duration_text(total: int) -> Seq<char> {
    dec_str(total / 3600) + ("h ")@ + dec_str((total % 3600) / 60) + ("m ")@ + dec_str(total % 60)
        + ("s")@
}

/// Renders the time elapsed from `started_at` to `now` as hours, minutes
/// and seconds.
pub fn format_duration_from(now: u64, started_at: u64) -> (r: String)
    ensures
        r@ == duration_text(elapsed_seconds(now, started_at)),
{
    let total = if now >= started_at {
        now - started_at
    } else {
        0
    };
    let mut s = String::new();
    append_dec(&mut s, total / 3600);
    s.append("h ");
    append_dec(&mut s, (total % 3600) / 60);
    s.append("m ");
    append_dec(&mut s, total % 60);
    s.append("s");
    proof {
        assert(s@ =~= duration_text(total as int));
    }
    s
}

/// Relies on std::time's SystemTime::now and duration_since: the whole
/// seconds of the system clock past the Unix epoch, zero when the clock
/// reads earlier. Nothing is promised of a clock reading.
#[verifier::external_body]
pub fn current_epoch_seconds() -> u64 {
    std::time::SystemTime::now().duration_since(std::time::UNIX_EPOCH).map(
        |elapsed| elapsed.as_secs(),
    ).unwrap_or(0)
}

/// Renders the time elapsed since `started_at` as read from the system
/// clock.
pub fn format_duration(started_at: u64) -> (r: String)
    ensures
        exists|now: u64| r@ == duration_text(#[trigger] elapsed_seconds(now, started_at)),
{
    let now = current_epoch_seconds();
    let r = format_duration_from(now, started_at);
    proof {
        assert(r@ == duration_text(elapsed_seconds(now, started_at)));
    }
    r
}

} // verus!
