//! The edit distance as a count of edits: `edit_distance(a, b)` is exactly
//! the length of a shortest chain of single-character insertions, deletions
//! and substitutions turning `a` into `b`.

use vstd::prelude::*;

use super::distance::{
    edit_distance, lemma_edit_distance_symmetric, lemma_edit_distance_triangle,
    lemma_edit_distance_zero_iff_equal,
};

verus! {

/// `y` is `x` with `c` inserted before position `i`.
pub open spec fn inserts(x: Seq<char>, y: Seq<char>, i: int, c: char) -> bool {
    0 <= i <= x.len() && y == x.take(i) + seq![c] + x.skip(i)
}

/// `y` is `x` with the character at position `i` replaced by `c`.
pub open spec fn substitutes(x: Seq<char>, y: Seq<char>, i: int, c: char) -> bool {
    0 <= i < x.len() && y == x.update(i, c)
}

/// `y` is one single-character insertion, deletion or substitution away
/// from `x`.
pub open spec fn one_edit(x: Seq<char>, y: Seq<char>) -> bool {
    ||| exists|i: int, c: char| inserts(x, y, i, c)
    ||| exists|i: int, c: char| inserts(y, x, i, c)
    ||| exists|i: int, c: char| substitutes(x, y, i, c)
}

/// Step `i` of `path` is a single edit.
pub open spec fn edit_step(path: Seq<Seq<char>>, i: int) -> bool {
    one_edit(path[i], path[i + 1])
}

/// `path` is a non-empty chain of strings, each one edit away from the
/// previous one; it takes `path.len() - 1` edits.
pub open spec fn is_edit_path(path: Seq<Seq<char>>) -> bool {
    &&& path.len() >= 1
    &&& forall|i: int| 0 <= i < path.len() - 1 ==> #[trigger] edit_step(path, i)
}

/// A common suffix never adds to the distance.
proof fn lemma_common_suffix(u: Seq<char>, v: Seq<char>, s: Seq<char>)
    ensures
        edit_distance(u + s, v + s) <= edit_distance(u, v),
    decreases s.len(),
{
    if s.len() == 0 {
        assert(u + s =~= u);
        assert(v + s =~= v);
    } else {
        let rest = s.drop_last();
        lemma_common_suffix(u, v, rest);
        assert((u + s).drop_last() =~= u + rest);
        assert((v + s).drop_last() =~= v + rest);
    }
}

/// Appending one character costs at most one edit.
proof fn lemma_push_costs_one(p: Seq<char>, c: char)
    ensures
        edit_distance(p, p.push(c)) <= 1,
{
    lemma_edit_distance_zero_iff_equal(p, p);
    assert(p.push(c).drop_last() =~= p);
}

/// Replacing the last character costs at most one edit.
proof fn lemma_replace_last_costs_one(p: Seq<char>, x: char, y: char)
    ensures
        edit_distance(p.push(x), p.push(y)) <= 1,
{
    lemma_edit_distance_zero_iff_equal(p, p);
    assert(p.push(x).drop_last() =~= p);
    assert(p.push(y).drop_last() =~= p);
}

/// An insertion costs at most one edit.
proof fn lemma_insertion_costs_one(x: Seq<char>, y: Seq<char>, i: int, c: char)
    requires
        inserts(x, y, i, c),
    ensures
        edit_distance(x, y) <= 1,
{
    let p = x.take(i);
    let s = x.skip(i);
    assert(x =~= p + s);
    assert(y =~= p.push(c) + s);
    lemma_common_suffix(p, p.push(c), s);
    lemma_push_costs_one(p, c);
}

/// A single edit costs at most one: the distance counts every edit.
pub proof fn lemma_one_edit_costs_at_most_one(x: Seq<char>, y: Seq<char>)
    requires
        one_edit(x, y),
    ensures
        edit_distance(x, y) <= 1,
{
    if exists|i: int, c: char| inserts(x, y, i, c) {
        let (i, c) = choose|i: int, c: char| inserts(x, y, i, c);
        lemma_insertion_costs_one(x, y, i, c);
    } else if exists|i: int, c: char| inserts(y, x, i, c) {
        let (i, c) = choose|i: int, c: char| inserts(y, x, i, c);
        lemma_insertion_costs_one(y, x, i, c);
        lemma_edit_distance_symmetric(x, y);
    } else {
        let (i, c) = choose|i: int, c: char| substitutes(x, y, i, c);
        let p = x.take(i);
        let s = x.skip(i + 1);
        assert(x =~= p.push(x[i]) + s);
        assert(y =~= p.push(c) + s);
        lemma_common_suffix(p.push(x[i]), p.push(c), s);
        lemma_replace_last_costs_one(p, x[i], c);
    }
}

/// Any chain of edits from `path[0]` to its last string is at least as long
/// as the edit distance between the two.
pub proof fn lemma_edit_distance_at_most_path_length(path: Seq<Seq<char>>)
    requires
        is_edit_path(path),
    ensures
        edit_distance(path[0], path.last()) <= path.len() - 1,
    decreases path.len(),
{
    if path.len() == 1 {
        lemma_edit_distance_zero_iff_equal(path[0], path[0]);
    } else {
        let front = path.drop_last();
        assert forall|i: int| 0 <= i < front.len() - 1 implies #[trigger] edit_step(front, i) by {
            assert(edit_step(path, i));
        }
        lemma_edit_distance_at_most_path_length(front);
        let n = path.len() - 1;
        assert(edit_step(path, n - 1));
        lemma_one_edit_costs_at_most_one(path[n - 1], path[n]);
        lemma_edit_distance_triangle(path[0], path[n - 1], path[n]);
    }
}

/// A chain of edits may start with one more edit.
proof fn lemma_path_prepend(x: Seq<char>, path: Seq<Seq<char>>)
    requires
        is_edit_path(path),
        one_edit(x, path[0]),
    ensures
        is_edit_path(seq![x] + path),
{
    let longer = seq![x] + path;
    assert forall|i: int| 0 <= i < longer.len() - 1 implies #[trigger] edit_step(longer, i) by {
        if i > 0 {
            assert(edit_step(path, i - 1));
            assert(longer[i] == path[i - 1]);
            assert(longer[i + 1] == path[i]);
        }
    }
}

/// A chain of edits may end with one more edit.
proof fn lemma_path_append(path: Seq<Seq<char>>, y: Seq<char>)
    requires
        is_edit_path(path),
        one_edit(path.last(), y),
    ensures
        is_edit_path(path.push(y)),
{
    let longer = path.push(y);
    assert forall|i: int| 0 <= i < longer.len() - 1 implies #[trigger] edit_step(longer, i) by {
        if i < path.len() - 1 {
            assert(edit_step(path, i));
        }
    }
}

/// An edit stays an edit when the same character is appended to both sides.
proof fn lemma_one_edit_push(u: Seq<char>, v: Seq<char>, x: char)
    requires
        one_edit(u, v),
    ensures
        one_edit(u.push(x), v.push(x)),
{
    if exists|i: int, c: char| inserts(u, v, i, c) {
        let (i, c) = choose|i: int, c: char| inserts(u, v, i, c);
        assert(v.push(x) =~= u.push(x).take(i) + seq![c] + u.push(x).skip(i));
        assert(inserts(u.push(x), v.push(x), i, c));
    } else if exists|i: int, c: char| inserts(v, u, i, c) {
        let (i, c) = choose|i: int, c: char| inserts(v, u, i, c);
        assert(u.push(x) =~= v.push(x).take(i) + seq![c] + v.push(x).skip(i));
        assert(inserts(v.push(x), u.push(x), i, c));
    } else {
        let (i, c) = choose|i: int, c: char| substitutes(u, v, i, c);
        assert(v.push(x) =~= u.push(x).update(i, c));
        assert(substitutes(u.push(x), v.push(x), i, c));
    }
}

/// A chain of edits stays a chain when one character is appended to every
/// string on it.
proof fn lemma_path_push_each(path: Seq<Seq<char>>, x: char)
    requires
        is_edit_path(path),
    ensures
        is_edit_path(path.map_values(|s: Seq<char>| s.push(x))),
{
    let lifted = path.map_values(|s: Seq<char>| s.push(x));
    assert forall|i: int| 0 <= i < lifted.len() - 1 implies #[trigger] edit_step(lifted, i) by {
        assert(edit_step(path, i));
        lemma_one_edit_push(path[i], path[i + 1], x);
    }
}

/// Appending a character to `p` is an insertion at its end.
proof fn lemma_push_is_insertion(p: Seq<char>, c: char)
    ensures
        one_edit(p, p.push(c)),
{
    assert(p.push(c) =~= p.take(p.len() as int) + seq![c] + p.skip(p.len() as int));
    assert(inserts(p, p.push(c), p.len() as int, c));
}

/// A shortest chain of edits: from `a` to `b` in exactly
/// `edit_distance(a, b)` single-character edits. With
/// `lemma_edit_distance_at_most_path_length`, the edit distance is the
/// minimum number of insertions, deletions and substitutions turning `a`
/// into `b`.
pub proof fn lemma_edit_distance_achieved(a: Seq<char>, b: Seq<char>) -> (path: Seq<Seq<char>>)
    ensures
        is_edit_path(path),
        path[0] == a,
        path.last() == b,
        path.len() == edit_distance(a, b) + 1,
    decreases a.len() + b.len(),
{
    if a.len() == 0 && b.len() == 0 {
        assert(a =~= b);
        seq![a]
    } else if a.len() == 0 {
        let front = lemma_edit_distance_achieved(a, b.drop_last());
        lemma_push_is_insertion(b.drop_last(), b.last());
        assert(b.drop_last().push(b.last()) =~= b);
        lemma_path_append(front, b);
        front.push(b)
    } else if b.len() == 0 {
        let rest = lemma_edit_distance_achieved(a.drop_last(), b);
        assert(a.drop_last().take(a.drop_last().len() as int) + seq![a.last()] + a.drop_last().skip(
            a.drop_last().len() as int,
        ) =~= a);
        assert(inserts(a.drop_last(), a, a.drop_last().len() as int, a.last()));
        lemma_path_prepend(a, rest);
        seq![a] + rest
    } else {
        let x = a.last();
        let y = b.last();
        let shorter_a = a.drop_last();
        let shorter_b = b.drop_last();
        assert(shorter_a.push(x) =~= a);
        assert(shorter_b.push(y) =~= b);
        if edit_distance(a, b) == edit_distance(shorter_a, b) + 1 {
            let rest = lemma_edit_distance_achieved(shorter_a, b);
            assert(shorter_a.take(shorter_a.len() as int) + seq![x] + shorter_a.skip(
                shorter_a.len() as int,
            ) =~= a);
            assert(inserts(shorter_a, a, shorter_a.len() as int, x));
            lemma_path_prepend(a, rest);
            seq![a] + rest
        } else if edit_distance(a, b) == edit_distance(a, shorter_b) + 1 {
            let front = lemma_edit_distance_achieved(a, shorter_b);
            lemma_push_is_insertion(shorter_b, y);
            lemma_path_append(front, b);
            front.push(b)
        } else {
            let inner = lemma_edit_distance_achieved(shorter_a, shorter_b);
            lemma_path_push_each(inner, x);
            let lifted = inner.map_values(|s: Seq<char>| s.push(x));
            assert(lifted[0] == a);
            assert(lifted.last() == shorter_b.push(x));
            if x == y {
                lifted
            } else {
                assert(b =~= shorter_b.push(x).update(shorter_b.len() as int, y));
                assert(substitutes(shorter_b.push(x), b, shorter_b.len() as int, y));
                lemma_path_append(lifted, b);
                lifted.push(b)
            }
        }
    }
}

} // verus!
