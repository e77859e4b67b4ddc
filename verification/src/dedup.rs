//! Order-preserving removal of duplicates.
//!
//! Both the scenario list and the dependency URL list keep the first
//! occurrence of every entry and drop the rest, preserving order.

use vstd::prelude::*;

verus! {

/// The subsequence of `s` that keeps the first occurrence of every element
/// and drops every later duplicate.
pub open spec fn dedup_first<T>(s: Seq<T>) -> Seq<T>
    decreases s.len(),
{
    if s.len() == 0 {
        Seq::empty()
    } else {
        let rest = dedup_first(s.drop_last());
        if rest.contains(s.last()) {
            rest
        } else {
            rest.push(s.last())
        }
    }
}

/// The position of the first occurrence of `x` in `s`.
pub open spec fn first_index_of<T>(s: Seq<T>, x: T) -> int
    decreases s.len(),
{
    if s.len() == 0 {
        0
    } else if s.first() == x {
        0
    } else {
        1 + first_index_of(s.drop_first(), x)
    }
}

proof fn lemma_first_index_of<T>(s: Seq<T>, x: T)
    requires
        s.contains(x),
    ensures
        0 <= first_index_of(s, x) < s.len(),
        s[first_index_of(s, x)] == x,
        forall|k: int| 0 <= k < first_index_of(s, x) ==> s[k] != x,
    decreases s.len(),
{
    if s.len() > 0 && s.first() != x {
        assert(s.drop_first().contains(x)) by {
            let k = choose|k: int| 0 <= k < s.len() && s[k] == x;
            assert(s.drop_first()[k - 1] == x);
        };
        lemma_first_index_of(s.drop_first(), x);
        let f = first_index_of(s.drop_first(), x);
        assert(s[1 + f] == s.drop_first()[f]);
        assert forall|k: int| 0 <= k < 1 + f implies s[k] != x by {
            if k >= 1 {
                assert(s.drop_first()[k - 1] == s[k]);
            }
        };
    }
}

/// Removing duplicates keeps exactly the elements of the input.
pub proof fn lemma_dedup_first_same_elements<T>(s: Seq<T>)
    ensures
        forall|x: T| dedup_first(s).contains(x) <==> s.contains(x),
    decreases s.len(),
{
    if s.len() > 0 {
        lemma_dedup_first_same_elements(s.drop_last());
        assert forall|x: T| s.contains(x) implies dedup_first(s).contains(x) by {
            let k = choose|k: int| 0 <= k < s.len() && s[k] == x;
            if k < s.len() - 1 {
                assert(s.drop_last()[k] == x);
                assert(s.drop_last().contains(x));
                let rest = dedup_first(s.drop_last());
                let j = choose|j: int| 0 <= j < rest.len() && rest[j] == x;
                assert(dedup_first(s)[j] == x);
            } else {
                let rest = dedup_first(s.drop_last());
                if rest.contains(x) {
                    let j = choose|j: int| 0 <= j < rest.len() && rest[j] == x;
                    assert(dedup_first(s)[j] == x);
                } else {
                    assert(dedup_first(s).last() == x);
                }
            }
        };
        assert forall|x: T| dedup_first(s).contains(x) implies s.contains(x) by {
            let rest = dedup_first(s.drop_last());
            let j = choose|j: int| 0 <= j < dedup_first(s).len() && dedup_first(s)[j] == x;
            if j < rest.len() {
                assert(rest[j] == x);
                assert(s.drop_last().contains(x));
                let k = choose|k: int| 0 <= k < s.drop_last().len() && s.drop_last()[k] == x;
                assert(s[k] == x);
            } else {
                assert(s.last() == x);
            }
        };
    }
}

/// Removing duplicates leaves no duplicates: distinct positions of the
/// result hold distinct elements.
pub proof fn lemma_dedup_first_no_duplicates<T>(s: Seq<T>)
    ensures
        forall|i: int, j: int|
            0 <= i < j < dedup_first(s).len() ==> dedup_first(s)[i] != dedup_first(s)[j],
    decreases s.len(),
{
    if s.len() > 0 {
        lemma_dedup_first_no_duplicates(s.drop_last());
        let rest = dedup_first(s.drop_last());
        assert forall|i: int, j: int|
            0 <= i < j < dedup_first(s).len() implies dedup_first(s)[i] != dedup_first(s)[j] by {
            if !rest.contains(s.last()) && j == rest.len() {
                assert(dedup_first(s)[i] == rest[i]);
                assert(rest.contains(rest[i]));
            }
        };
    }
}

/// Removing duplicates preserves first-occurrence order: elements of the
/// result appear in the order of their first occurrences in the input.
pub proof fn lemma_dedup_first_order<T>(s: Seq<T>)
    ensures
        forall|i: int, j: int|
            0 <= i < j < dedup_first(s).len() ==> first_index_of(s, dedup_first(s)[i])
                < first_index_of(s, dedup_first(s)[j]),
    decreases s.len(),
{
    if s.len() > 0 {
        lemma_dedup_first_order(s.drop_last());
        let rest = dedup_first(s.drop_last());
        let d = dedup_first(s);
        assert forall|i: int, j: int|
            0 <= i < j < d.len() implies first_index_of(s, d[i]) < first_index_of(s, d[j]) by {
            lemma_dedup_first_same_elements(s.drop_last());
            lemma_dedup_first_no_duplicates(s.drop_last());
            if j < rest.len() {
                lemma_first_index_of_extend(s, d[i]);
                lemma_first_index_of_extend(s, d[j]);
            } else {
                // d[j] is s.last(), freshly appended: it does not occur in
                // s.drop_last(), so its first occurrence is the last position.
                assert(d[i] == rest[i]);
                assert(rest.contains(rest[i]));
                assert(s.drop_last().contains(d[i]));
                lemma_first_index_of_extend(s, d[i]);
                lemma_first_index_of(s.drop_last(), d[i]);
                assert(!s.drop_last().contains(d[j]));
                assert(s.contains(d[j])) by {
                    assert(s.last() == d[j]);
                };
                lemma_first_index_of(s, d[j]);
                assert forall|k: int| 0 <= k < s.len() - 1 implies s[k] != d[j] by {
                    assert(s.drop_last()[k] == s[k]);
                    if s[k] == d[j] {
                        assert(s.drop_last().contains(d[j]));
                    }
                };
                assert(first_index_of(s, d[j]) == s.len() - 1);
                assert(first_index_of(s, d[i]) < s.len() - 1);
            }
        };
    }
}

proof fn lemma_first_index_of_extend<T>(s: Seq<T>, x: T)
    requires
        s.len() > 0,
        s.drop_last().contains(x),
    ensures
        first_index_of(s, x) == first_index_of(s.drop_last(), x),
        first_index_of(s, x) < s.len() - 1,
    decreases s.len(),
{
    lemma_first_index_of(s.drop_last(), x);
    let f = first_index_of(s.drop_last(), x);
    assert(s[f] == x);
    assert(s.contains(x));
    lemma_first_index_of(s, x);
    let g = first_index_of(s, x);
    if g < f {
        assert(s.drop_last()[g] == s[g]);
    }
    if f < g {
        assert(s[f] == x);
    }
}

/// Appends `value` to `values` unless an equal string is already present.
pub fn push_unique(values: &mut Vec<String>, value: String)
    ensures
        final(values)@.map_values(|x: String| x@) == (if old(values)@.map_values(
            |x: String| x@,
        ).contains(value@) {
            old(values)@.map_values(|x: String| x@)
        } else {
            old(values)@.map_values(|x: String| x@).push(value@)
        }),
{
    let ghost old_views = values@.map_values(|x: String| x@);
    let mut k: usize = 0;
    let n = values.len();
    while k < n
        invariant
            n == values.len(),
            k <= n,
            values@ == old(values)@,
            old_views == values@.map_values(|x: String| x@),
            forall|t: int| 0 <= t < k ==> (#[trigger] values@[t])@ != value@,
        decreases n - k,
    {
        if values[k] == value {
            proof {
                assert(old_views[k as int] == value@);
                assert(old_views.contains(value@));
            }
            return ;
        }
        k += 1;
    }
    proof {
        if old_views.contains(value@) {
            let t = choose|t: int| 0 <= t < old_views.len() && old_views[t] == value@;
            assert(values@[t]@ == value@);
            assert(false);
        }
    }
    values.push(value);
    proof {
        assert(values@.map_values(|x: String| x@) =~= old_views.push(value@));
    }
}

/// Removes duplicate strings, keeping the first occurrence of each and
/// preserving order.
pub fn dedupe_preserve_order(values: Vec<String>) -> (r: Vec<String>)
    ensures
        r@.map_values(|x: String| x@) == dedup_first(values@.map_values(|x: String| x@)),
{
    let mut r: Vec<String> = Vec::new();
    let mut k: usize = 0;
    let n = values.len();
    while k < n
        invariant
            n == values.len(),
            k <= n,
            r@.map_values(|x: String| x@) == dedup_first(
                values@.map_values(|x: String| x@).take(k as int),
            ),
        decreases n - k,
    {
        let ghost views = values@.map_values(|x: String| x@);
        let ghost before = r@.map_values(|x: String| x@);
        push_unique(&mut r, values[k].clone());
        proof {
            assert(views.take(k as int + 1).drop_last() =~= views.take(k as int));
            assert(views.take(k as int + 1).last() == views[k as int]);
        }
        k += 1;
    }
    proof {
        assert(values@.map_values(|x: String| x@).take(n as int) =~= values@.map_values(
            |x: String| x@,
        ));
    }
    r
}

} // verus!
