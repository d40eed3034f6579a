//! Edit-distance primitives for typosquat detection.
//!
//! A typosquatted package name is a small number of keystroke edits away from
//! a popular one. `levenshtein_distance` measures that gap over Unicode scalar
//! values and `nearest_match` finds the closest name in a reference set.

use vstd::prelude::*;

use super::text::chars_of;

verus! {

/// The smaller of two naturals.
pub open spec fn min_nat(x: nat, y: nat) -> nat {
    if x <= y { x } else { y }
}

/// Levenshtein distance between two character sequences: the minimum number
/// of single-character insertions, deletions or substitutions turning `a`
/// into `b`. Defined by the usual recurrence on the last characters.
pub open spec fn edit_distance(a: Seq<char>, b: Seq<char>) -> nat
    decreases a.len() + b.len(),
{
    if a.len() == 0 {
        b.len()
    } else if b.len() == 0 {
        a.len()
    } else {
        let substitution: nat = if a.last() == b.last() { 0 } else { 1 };
        min_nat(
            min_nat(edit_distance(a.drop_last(), b) + 1, edit_distance(a, b.drop_last()) + 1),
            edit_distance(a.drop_last(), b.drop_last()) + substitution,
        )
    }
}

/// The distance never exceeds the length of the longer operand.
pub proof fn lemma_edit_distance_at_most_longer(a: Seq<char>, b: Seq<char>)
    ensures
        edit_distance(a, b) <= if a.len() >= b.len() { a.len() } else { b.len() },
    decreases a.len() + b.len(),
{
    if a.len() > 0 && b.len() > 0 {
        lemma_edit_distance_at_most_longer(a.drop_last(), b.drop_last());
    }
}

/// Against an empty string the distance is the other operand's length.
pub proof fn lemma_edit_distance_to_empty(a: Seq<char>)
    ensures
        edit_distance(a, Seq::empty()) == a.len(),
        edit_distance(Seq::empty(), a) == a.len(),
{
}

/// The distance is zero exactly when the two sequences are equal.
pub proof fn lemma_edit_distance_zero_iff_equal(a: Seq<char>, b: Seq<char>)
    ensures
        edit_distance(a, b) == 0 <==> a == b,
    decreases a.len() + b.len(),
{
    if a.len() > 0 && b.len() > 0 {
        lemma_edit_distance_zero_iff_equal(a.drop_last(), b.drop_last());
        assert(a =~= a.drop_last().push(a.last()));
        assert(b =~= b.drop_last().push(b.last()));
        if a == b {
            assert(a.drop_last() == b.drop_last());
        }
    } else if a.len() == 0 && b.len() == 0 {
        assert(a =~= b);
    }
}

/// The distance is symmetric.
pub proof fn lemma_edit_distance_symmetric(a: Seq<char>, b: Seq<char>)
    ensures
        edit_distance(a, b) == edit_distance(b, a),
    decreases a.len() + b.len(),
{
    if a.len() > 0 && b.len() > 0 {
        lemma_edit_distance_symmetric(a.drop_last(), b);
        lemma_edit_distance_symmetric(a, b.drop_last());
        lemma_edit_distance_symmetric(a.drop_last(), b.drop_last());
    }
}

/// The distance is at least the difference of the two lengths.
pub proof fn lemma_edit_distance_at_least_length_gap(a: Seq<char>, b: Seq<char>)
    ensures
        edit_distance(a, b) >= if a.len() >= b.len() { a.len() - b.len() } else { b.len() - a.len() },
    decreases a.len() + b.len(),
{
    if a.len() > 0 && b.len() > 0 {
        lemma_edit_distance_at_least_length_gap(a.drop_last(), b);
        lemma_edit_distance_at_least_length_gap(a, b.drop_last());
        lemma_edit_distance_at_least_length_gap(a.drop_last(), b.drop_last());
    }
}

/// The triangle inequality: going from `a` to `c` never takes more edits
/// than going through `b`.
pub proof fn lemma_edit_distance_triangle(a: Seq<char>, b: Seq<char>, c: Seq<char>)
    ensures
        edit_distance(a, c) <= edit_distance(a, b) + edit_distance(b, c),
    decreases a.len() + b.len() + c.len(),
{
    if a.len() == 0 {
        lemma_edit_distance_at_least_length_gap(b, c);
    } else if c.len() == 0 {
        lemma_edit_distance_at_least_length_gap(a, b);
    } else if b.len() == 0 {
        lemma_edit_distance_at_most_longer(a, c);
    } else {
        lemma_edit_distance_triangle(a.drop_last(), b, c);
        lemma_edit_distance_triangle(a, b, c.drop_last());
        lemma_edit_distance_triangle(a, b.drop_last(), c);
        lemma_edit_distance_triangle(a, b.drop_last(), c.drop_last());
        lemma_edit_distance_triangle(a.drop_last(), b.drop_last(), c);
        lemma_edit_distance_triangle(a.drop_last(), b.drop_last(), c.drop_last());
    }
}

/// One step of the dynamic-programming table, read on prefixes of `a` and `b`.
proof fn lemma_edit_distance_prefix_step(a: Seq<char>, b: Seq<char>, i: int, j: int)
    requires
        0 <= i < a.len(),
        0 <= j < b.len(),
    ensures
        edit_distance(a.take(i + 1), b.take(j + 1)) == min_nat(
            min_nat(
                edit_distance(a.take(i), b.take(j + 1)) + 1,
                edit_distance(a.take(i + 1), b.take(j)) + 1,
            ),
            edit_distance(a.take(i), b.take(j)) + (if a[i] == b[j] { 0nat } else { 1nat }),
        ),
{
    assert(a.take(i + 1).drop_last() =~= a.take(i));
    assert(b.take(j + 1).drop_last() =~= b.take(j));
}

/// Row 0 and column 0 of the table.
proof fn lemma_edit_distance_empty_prefix(a: Seq<char>, b: Seq<char>, i: int, j: int)
    requires
        0 <= i <= a.len(),
        0 <= j <= b.len(),
    ensures
        edit_distance(a.take(0), b.take(j)) == j,
        edit_distance(a.take(i), b.take(0)) == i,
{
}

/// Standard Levenshtein edit distance between `a` and `b`, counted in
/// Unicode scalar values (`char`s): a multi-byte character is one edit.
pub fn levenshtein_distance(a: &str, b: &str) -> (distance: usize)
    ensures
        distance == edit_distance(a@, b@),
{
    let a = chars_of(a);
    let b = chars_of(b);
    let n = a.len();
    let m = b.len();

    if n == 0 {
        return m;
    }
    if m == 0 {
        return n;
    }

    let ghost sa = a@;
    let ghost sb = b@;

    // `row[k]` holds the distance between the processed prefix of `a` and
    // the first `k + 1` characters of `b`; the column for the empty prefix of
    // `b` is carried separately, as it is just the length of the prefix of `a`.
    let mut row: Vec<usize> = Vec::new();
    let mut k: usize = 0;
    while k < m
        invariant
            k <= m,
            m == sb.len(),
            row@.len() == k,
            forall|t: int| 0 <= t < k ==> #[trigger] row@[t] == edit_distance(sa.take(0), sb.take(t + 1)),
        decreases m - k,
    {
        proof {
            lemma_edit_distance_empty_prefix(sa, sb, 0, k + 1);
        }
        row.push(k + 1);
        k = k + 1;
    }

    let mut i: usize = 0;
    while i < n
        invariant
            i <= n,
            n == sa.len(),
            m == sb.len(),
            a@ == sa,
            b@ == sb,
            row@.len() == m,
            forall|t: int| 0 <= t < m ==> #[trigger] row@[t] == edit_distance(sa.take(i as int), sb.take(t + 1)),
        decreases n - i,
    {
        let ca = a[i];
        let mut diagonal: usize = i;
        let mut left: usize = i + 1;
        proof {
            lemma_edit_distance_empty_prefix(sa, sb, i as int, 0);
            lemma_edit_distance_empty_prefix(sa, sb, i as int + 1, 0);
        }
        let mut j: usize = 0;
        while j < m
            invariant
                i < n,
                j <= m,
                n == sa.len(),
                m == sb.len(),
                a@ == sa,
                b@ == sb,
                ca == sa[i as int],
                row@.len() == m,
                forall|t: int| 0 <= t < j ==> #[trigger] row@[t] == edit_distance(sa.take(i + 1), sb.take(t + 1)),
                forall|t: int| j <= t < m ==> #[trigger] row@[t] == edit_distance(sa.take(i as int), sb.take(t + 1)),
                diagonal == edit_distance(sa.take(i as int), sb.take(j as int)),
                left == edit_distance(sa.take(i + 1), sb.take(j as int)),
            decreases m - j,
        {
            let up = row[j];
            let substitution: usize = if ca == b[j] { 0 } else { 1 };
            let delete = up.saturating_add(1);
            let insert = left.saturating_add(1);
            let replace = diagonal.saturating_add(substitution);
            let mut best = if delete <= insert { delete } else { insert };
            if replace < best {
                best = replace;
            }
            proof {
                lemma_edit_distance_prefix_step(sa, sb, i as int, j as int);
                lemma_edit_distance_at_most_longer(sa.take(i + 1), sb.take(j + 1));
            }
            diagonal = up;
            row.set(j, best);
            left = best;
            j = j + 1;
        }
        i = i + 1;
    }
    proof {
        assert(sa.take(n as int) =~= sa);
        assert(sb.take(m as int) =~= sb);
    }
    row[m - 1]
}

/// The character sequences of the names in `dataset`, in order.
pub open spec fn names_of(dataset: Seq<String>) -> Seq<Seq<char>> {
    dataset.map_values(|name: String| name@)
}

/// `index` is the earliest entry of `names` at the smallest edit distance
/// from `candidate`.
pub open spec fn is_nearest_index(candidate: Seq<char>, names: Seq<Seq<char>>, index: int) -> bool {
    &&& 0 <= index < names.len()
    &&& forall|k: int|
        0 <= k < names.len() ==> edit_distance(candidate, names[index]) <= #[trigger] edit_distance(
            candidate,
            names[k],
        )
    &&& forall|k: int|
        0 <= k < index ==> edit_distance(candidate, names[index]) < #[trigger] edit_distance(
            candidate,
            names[k],
        )
}

/// The position of the nearest name (earliest on a tie); meaningful when
/// `names` is not empty.
pub open spec fn nearest_index(candidate: Seq<char>, names: Seq<Seq<char>>) -> int {
    choose|index: int| is_nearest_index(candidate, names, index)
}

/// What `nearest_match` answers: the nearest name and its distance, or the
/// empty name with `usize::MAX` when there is no name at all.
pub open spec fn nearest_match_spec(candidate: Seq<char>, names: Seq<Seq<char>>) -> (Seq<char>, nat) {
    if names.len() == 0 {
        (Seq::empty(), usize::MAX as nat)
    } else {
        let index = nearest_index(candidate, names);
        (names[index], edit_distance(candidate, names[index]))
    }
}

/// At most one position is the nearest one.
pub proof fn lemma_nearest_index_unique(candidate: Seq<char>, names: Seq<Seq<char>>, i: int, j: int)
    requires
        is_nearest_index(candidate, names, i),
        is_nearest_index(candidate, names, j),
    ensures
        i == j,
{
    if i < j {
        assert(edit_distance(candidate, names[j]) < edit_distance(candidate, names[i]));
        assert(edit_distance(candidate, names[i]) <= edit_distance(candidate, names[j]));
    } else if j < i {
        assert(edit_distance(candidate, names[i]) < edit_distance(candidate, names[j]));
        assert(edit_distance(candidate, names[j]) <= edit_distance(candidate, names[i]));
    }
}

/// A witness of `is_nearest_index` is the one `nearest_index` picks.
proof fn lemma_nearest_index_is(candidate: Seq<char>, names: Seq<Seq<char>>, i: int)
    requires
        is_nearest_index(candidate, names, i),
    ensures
        nearest_index(candidate, names) == i,
{
    let chosen = nearest_index(candidate, names);
    lemma_nearest_index_unique(candidate, names, chosen, i);
}

/// A nearest position, built by scanning `names` from the front.
proof fn lemma_nearest_witness(candidate: Seq<char>, names: Seq<Seq<char>>) -> (index: int)
    requires
        names.len() > 0,
    ensures
        is_nearest_index(candidate, names, index),
    decreases names.len(),
{
    if names.len() == 1 {
        0
    } else {
        let front = names.drop_last();
        let j = lemma_nearest_witness(candidate, front);
        let last = names.len() - 1;
        assert forall|k: int| 0 <= k < front.len() implies #[trigger] front[k] == names[k] by {}
        assert(edit_distance(candidate, names[j]) == edit_distance(candidate, front[j]));
        assert forall|k: int| 0 <= k < last implies edit_distance(candidate, front[j]) <= #[trigger] edit_distance(
            candidate,
            names[k],
        ) by {
            assert(front[k] == names[k]);
            assert(edit_distance(candidate, front[j]) <= edit_distance(candidate, front[k]));
        }
        if edit_distance(candidate, names[last]) < edit_distance(candidate, names[j]) {
            assert forall|k: int| 0 <= k < last implies edit_distance(candidate, names[last]) < #[trigger] edit_distance(
                candidate,
                names[k],
            ) by {
                assert(front[k] == names[k]);
                assert(edit_distance(candidate, front[j]) <= edit_distance(candidate, front[k]));
            }
            last
        } else {
            assert forall|k: int| 0 <= k < j implies edit_distance(candidate, names[j]) < #[trigger] edit_distance(
                candidate,
                names[k],
            ) by {
                assert(front[k] == names[k]);
                assert(edit_distance(candidate, front[j]) < edit_distance(candidate, front[k]));
            }
            j
        }
    }
}

/// A non-empty list always has a nearest position, and `nearest_index`
/// names it.
pub proof fn lemma_nearest_index_exists(candidate: Seq<char>, names: Seq<Seq<char>>)
    requires
        names.len() > 0,
    ensures
        is_nearest_index(candidate, names, nearest_index(candidate, names)),
{
    let i = lemma_nearest_witness(candidate, names);
    lemma_nearest_index_is(candidate, names, i);
}

/// When `candidate` is one of `names`, the nearest match is that very name,
/// at distance zero (its first occurrence, should it occur twice).
pub proof fn lemma_nearest_exact_hit(candidate: Seq<char>, names: Seq<Seq<char>>)
    requires
        names.contains(candidate),
    ensures
        nearest_match_spec(candidate, names) == (candidate, 0nat),
{
    names.index_of_first_ensures(candidate);
    let i = names.index_of_first(candidate).unwrap();
    assert forall|k: int| 0 <= k < i implies edit_distance(candidate, names[i]) < #[trigger] edit_distance(
        candidate,
        names[k],
    ) by {
        assert(names[k] != candidate);
        lemma_edit_distance_zero_iff_equal(candidate, names[k]);
        lemma_edit_distance_zero_iff_equal(candidate, names[i]);
    }
    lemma_edit_distance_zero_iff_equal(candidate, names[i]);
    assert(is_nearest_index(candidate, names, i));
    lemma_nearest_index_is(candidate, names, i);
}

/// Returns the name in `dataset` with the smallest `levenshtein_distance` to
/// `candidate`, together with that distance. On a tie the earliest entry
/// wins; an empty `dataset` yields `(String::new(), usize::MAX)`.
pub fn nearest_match(candidate: &str, dataset: &[String]) -> (result: (String, usize))
    ensures
        (result.0@, result.1 as nat) == nearest_match_spec(candidate@, names_of(dataset@)),
{
    let ghost names = names_of(dataset@);
    let n = dataset.len();
    let mut best_index: usize = 0;
    let mut best_distance: usize = 0;
    let mut found = false;
    let mut i: usize = 0;
    while i < n
        invariant
            i <= n,
            n == dataset@.len(),
            names == names_of(dataset@),
            found <==> i > 0,
            found ==> {
                &&& best_index < i
                &&& best_distance > 0
                &&& best_distance == edit_distance(candidate@, names[best_index as int])
                &&& forall|k: int|
                    0 <= k < i ==> best_distance <= #[trigger] edit_distance(candidate@, names[k])
                &&& forall|k: int|
                    0 <= k < best_index ==> best_distance < #[trigger] edit_distance(
                        candidate@,
                        names[k],
                    )
            },
        decreases n - i,
    {
        let distance = levenshtein_distance(candidate, dataset[i].as_str());
        assert(names[i as int] == dataset@[i as int]@);
        if distance == 0 {
            // Nothing can beat an exact match.
            proof {
                assert(is_nearest_index(candidate@, names, i as int));
                lemma_nearest_index_is(candidate@, names, i as int);
            }
            return (dataset[i].clone(), 0);
        }
        if !found || distance < best_distance {
            best_index = i;
            best_distance = distance;
        }
        found = true;
        i = i + 1;
    }
    if !found {
        return (String::new(), usize::MAX);
    }
    proof {
        assert(is_nearest_index(candidate@, names, best_index as int));
        lemma_nearest_index_is(candidate@, names, best_index as int);
    }
    (dataset[best_index].clone(), best_distance)
}

} // verus!
