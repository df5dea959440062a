//! Proved laws of the distance functions.

use vstd::prelude::*;

use crate::strings::edit_distance;
use crate::strings::hamming_distance;
use crate::strings::mismatches_upto;

verus! {

/// The edit distance never exceeds the longer input's length: the longer
/// input can always be turned into the other by substituting along the
/// shorter one and deleting the excess.
pub proof fn lemma_edit_distance_le_max(a: Seq<char>, b: Seq<char>)
    ensures
        a.len() >= b.len() ==> edit_distance(a, b) <= a.len(),
        b.len() >= a.len() ==> edit_distance(a, b) <= b.len(),
    decreases a.len() + b.len(),
{
    if a.len() == 0 || b.len() == 0 {
    } else {
        lemma_edit_distance_le_max(a.drop_last(), b.drop_last());
    }
}

/// Swapping the two inputs never changes the edit distance.
pub proof fn lemma_edit_distance_symmetric(a: Seq<char>, b: Seq<char>)
    ensures
        edit_distance(a, b) == edit_distance(b, a),
    decreases a.len() + b.len(),
{
    if a.len() == 0 || b.len() == 0 {
    } else {
        lemma_edit_distance_symmetric(a.drop_last(), b);
        lemma_edit_distance_symmetric(a, b.drop_last());
        lemma_edit_distance_symmetric(a.drop_last(), b.drop_last());
    }
}

/// The edit distance is at least the difference of the input lengths:
/// every edit changes the length by at most one.
pub proof fn lemma_edit_distance_ge_diff(a: Seq<char>, b: Seq<char>)
    ensures
        edit_distance(a, b) + a.len() >= b.len(),
        edit_distance(a, b) + b.len() >= a.len(),
    decreases a.len() + b.len(),
{
    if a.len() == 0 || b.len() == 0 {
    } else {
        lemma_edit_distance_ge_diff(a.drop_last(), b);
        lemma_edit_distance_ge_diff(a, b.drop_last());
        lemma_edit_distance_ge_diff(a.drop_last(), b.drop_last());
    }
}

/// A sequence is at edit distance zero from itself.
pub proof fn lemma_edit_distance_identity(a: Seq<char>)
    ensures
        edit_distance(a, a) == 0,
    decreases a.len(),
{
    if a.len() == 0 {
    } else {
        lemma_edit_distance_identity(a.drop_last());
    }
}

/// Against the empty sequence, the edit distance is the other input's
/// length: everything must be inserted or deleted.
pub proof fn lemma_edit_distance_empty(a: Seq<char>, b: Seq<char>)
    ensures
        edit_distance(Seq::<char>::empty(), b) == b.len(),
        edit_distance(a, Seq::<char>::empty()) == a.len(),
{
}

/// Appending one character to either input raises the edit distance by
/// at most one: the appended character can always be deleted or
/// inserted as one extra edit.
pub proof fn lemma_edit_distance_append_le(u: Seq<char>, w: Seq<char>, c: char)
    ensures
        edit_distance(u.push(c), w) <= edit_distance(u, w) + 1,
        edit_distance(u, w.push(c)) <= edit_distance(u, w) + 1,
{
    assert(u.push(c).drop_last() =~= u);
    assert(w.push(c).drop_last() =~= w);
}

/// Dropping an appended last character lowers the edit distance by at
/// most one.
pub proof fn lemma_edit_distance_unappend_le(u: Seq<char>, w: Seq<char>, c: char)
    ensures
        edit_distance(u, w) <= edit_distance(u.push(c), w) + 1,
    decreases u.len() + w.len(),
{
    assert(u.push(c).drop_last() =~= u);
    if w.len() == 0 {
    } else {
        let w0 = w.drop_last();
        let e = w.last();
        lemma_edit_distance_unappend_le(u, w0, c);
        lemma_edit_distance_append_le(u, w0, e);
        assert(w0.push(e) =~= w);
    }
}

/// The edit distance is a metric: going through any third sequence `c`
/// can never beat the direct distance from `a` to `b`.
pub proof fn lemma_edit_distance_triangle(a: Seq<char>, b: Seq<char>, c: Seq<char>)
    ensures
        edit_distance(a, b) <= edit_distance(a, c) + edit_distance(c, b),
    decreases a.len() + b.len() + c.len(),
{
    if c.len() == 0 {
        lemma_edit_distance_le_max(a, b);
    } else if a.len() == 0 {
        lemma_edit_distance_ge_diff(c, b);
    } else if b.len() == 0 {
        lemma_edit_distance_ge_diff(a, c);
    } else {
        let a0 = a.drop_last();
        let x = a.last();
        let b0 = b.drop_last();
        let z = b.last();
        let c0 = c.drop_last();
        let y = c.last();
        assert(a0.push(x) =~= a);
        assert(b0.push(z) =~= b);
        assert(c0.push(y) =~= c);
        let dac = edit_distance(a, c);
        if dac == edit_distance(a0, c) + 1 {
            lemma_edit_distance_triangle(a0, b, c);
            lemma_edit_distance_append_le(a0, b, x);
        } else if dac == edit_distance(a, c0) + 1 {
            lemma_edit_distance_triangle(a, b, c0);
            lemma_edit_distance_unappend_le(c0, b, y);
        } else {
            let dcb = edit_distance(c, b);
            if dcb == edit_distance(c0, b) + 1 {
                lemma_edit_distance_triangle(a0, b, c0);
                lemma_edit_distance_append_le(a0, b, x);
            } else if dcb == edit_distance(c, b0) + 1 {
                lemma_edit_distance_triangle(a, b0, c);
                lemma_edit_distance_append_le(a, b0, z);
            } else {
                lemma_edit_distance_triangle(a0, b0, c0);
            }
        }
    }
}

/// A sequence has no mismatches against itself, so its Hamming distance
/// from itself is zero.
pub proof fn lemma_hamming_distance_identity(x: Seq<char>)
    ensures
        hamming_distance(x, x) == 0,
{
    lemma_mismatches_upto_self(x, x.len() as int);
}

proof fn lemma_mismatches_upto_self(x: Seq<char>, n: int)
    ensures
        mismatches_upto(x, x, n) == 0,
    decreases n,
{
    if n <= 0 {
    } else {
        lemma_mismatches_upto_self(x, n - 1);
    }
}

/// The Hamming distance compares only the first `min(|x|, |y|)`
/// positions: extending the longer input with any trailing characters
/// never changes the count.
pub proof fn lemma_hamming_truncation(x: Seq<char>, y: Seq<char>, extra: Seq<char>)
    requires
        x.len() <= y.len(),
    ensures
        hamming_distance(x, y + extra) == hamming_distance(x, y),
{
    lemma_mismatches_upto_agree(x, y, y + extra, x.len() as int);
}

proof fn lemma_mismatches_upto_agree(x: Seq<char>, y1: Seq<char>, y2: Seq<char>, n: int)
    requires
        n <= y1.len(),
        n <= y2.len(),
        forall|k: int| 0 <= k < n ==> y1[k] == y2[k],
    ensures
        mismatches_upto(x, y1, n) == mismatches_upto(x, y2, n),
    decreases n,
{
    if n <= 0 {
    } else {
        lemma_mismatches_upto_agree(x, y1, y2, n - 1);
    }
}

} // verus!
