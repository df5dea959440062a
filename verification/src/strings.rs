//! String distance metrics over decoded character sequences.
//!
//! Distances are measured in logical characters (Unicode code points),
//! never in encoded bytes: each input string is decoded into a character
//! sequence first, so a multi-byte character counts as one edit unit.

use vstd::prelude::*;

use crate::laws::lemma_edit_distance_le_max;
use crate::laws::lemma_edit_distance_symmetric;
use crate::number::OverflowError;
use crate::number::UInt;

verus! {

/// The cost of aligning one character against another: `0` for a match,
/// `1` for a substitution.
pub open spec fn sub_cost(x: char, y: char) -> nat {
    if x == y {
        0
    } else {
        1
    }
}

/// The least of three counts.
pub open spec fn min3(x: nat, y: nat, z: nat) -> nat {
    if x <= y && x <= z {
        x
    } else if y <= z {
        y
    } else {
        z
    }
}

/// The Levenshtein distance between two character sequences: the minimum
/// number of single-character insertions, deletions and substitutions,
/// each of cost `1`, that turn `a` into `b`.
pub open spec fn edit_distance(a: Seq<char>, b: Seq<char>) -> nat
    decreases a.len() + b.len(),
{
    if a.len() == 0 {
        b.len()
    } else if b.len() == 0 {
        a.len()
    } else {
        min3(
            edit_distance(a.drop_last(), b) + 1,
            edit_distance(a, b.drop_last()) + 1,
            edit_distance(a.drop_last(), b.drop_last()) + sub_cost(a.last(), b.last()),
        )
    }
}

/// The number of mismatched positions among the first `n` positions of
/// `x` and `y`.
pub open spec fn mismatches_upto(x: Seq<char>, y: Seq<char>, n: int) -> nat
    decreases n,
{
    if n <= 0 {
        0
    } else {
        mismatches_upto(x, y, n - 1) + sub_cost(x[n - 1], y[n - 1])
    }
}

/// The Hamming distance between two character sequences: the number of
/// positions at which they differ, compared up to the length of the
/// shorter sequence. Trailing excess characters of the longer sequence
/// are ignored, never penalized.
pub open spec fn hamming_distance(x: Seq<char>, y: Seq<char>) -> nat {
    if x.len() <= y.len() {
        mismatches_upto(x, y, x.len() as int)
    } else {
        mismatches_upto(x, y, y.len() as int)
    }
}

/// Decodes a string into the sequence of its characters.
fn chars_of(s: &str) -> (r: Vec<char>)
    ensures
        r@ == s@,
{
    let n = s.unicode_len();
    let mut r: Vec<char> = Vec::new();
    let mut i: usize = 0;
    while i < n
        invariant
            n == s@.len(),
            i <= n,
            r@ == s@.take(i as int),
        decreases n - i,
    {
        let c = s.get_char(i);
        r.push(c);
        i = i + 1;
    }
    r
}

/// The Wagner-Fischer recurrence, restated over prefixes: the distance
/// between the first `i` characters of `a` and the first `j` of `b` is
/// the least of the deletion, insertion and substitution moves.
proof fn lemma_prefix_recurrence(a: Seq<char>, b: Seq<char>, i: int, j: int)
    requires
        1 <= i <= a.len(),
        1 <= j <= b.len(),
    ensures
        edit_distance(a.take(i), b.take(j)) == min3(
            edit_distance(a.take(i - 1), b.take(j)) + 1,
            edit_distance(a.take(i), b.take(j - 1)) + 1,
            edit_distance(a.take(i - 1), b.take(j - 1)) + sub_cost(a[i - 1], b[j - 1]),
        ),
{
    assert(a.take(i).drop_last() =~= a.take(i - 1));
    assert(b.take(j).drop_last() =~= b.take(j - 1));
}

/// The rolling-row dynamic program, on arguments already ordered so the
/// row is sized to the shorter sequence. After row `i`, cell `k` of the
/// row holds the distance between the first `i` characters of `long` and
/// the first `k` characters of `short`.
fn wagner_fischer(long: &Vec<char>, short: &Vec<char>) -> (d: usize)
    requires
        short@.len() <= long@.len(),
        long@.len() < usize::MAX,
    ensures
        d == edit_distance(long@, short@),
{
    let len_a = long.len();
    let len_b = short.len();

    let mut cur: Vec<usize> = Vec::new();
    let mut j: usize = 0;
    while j <= len_b
        invariant
            len_b < usize::MAX,
            j <= len_b + 1,
            cur@.len() == j,
            forall|k: int| 0 <= k < j ==> cur@[k] == k,
        decreases len_b + 1 - j,
    {
        cur.push(j);
        j = j + 1;
    }

    let mut i: usize = 0;
    while i < len_a
        invariant
            len_a == long@.len(),
            len_b == short@.len(),
            len_b <= len_a,
            len_a < usize::MAX,
            i <= len_a,
            cur@.len() == len_b + 1,
            forall|k: int| 0 <= k <= len_b ==> cur@[k] == edit_distance(
                long@.take(i as int),
                short@.take(k),
            ),
        decreases len_a - i,
    {
        let ca = long[i];
        let mut pre = cur[0];
        cur[0] = i + 1;

        let mut j: usize = 0;
        while j < len_b
            invariant
                len_a == long@.len(),
                len_b == short@.len(),
                len_b <= len_a,
                len_a < usize::MAX,
                i < len_a,
                j <= len_b,
                cur@.len() == len_b + 1,
                ca == long@[i as int],
                pre == edit_distance(long@.take(i as int), short@.take(j as int)),
                forall|k: int| 0 <= k <= j ==> cur@[k] == edit_distance(
                    long@.take(i as int + 1),
                    short@.take(k),
                ),
                forall|k: int| j < k <= len_b ==> cur@[k] == edit_distance(
                    long@.take(i as int),
                    short@.take(k),
                ),
            decreases len_b - j,
        {
            let cb = short[j];
            let tmp = cur[j + 1];
            proof {
                lemma_edit_distance_le_max(long@.take(i as int), short@.take(j as int + 1));
                lemma_edit_distance_le_max(long@.take(i as int + 1), short@.take(j as int));
                lemma_prefix_recurrence(long@, short@, i as int + 1, j as int + 1);
            }
            let del = tmp + 1;
            let ins = cur[j] + 1;
            let sub = if ca == cb {
                pre
            } else {
                proof {
                    lemma_edit_distance_le_max(long@.take(i as int), short@.take(j as int));
                }
                pre + 1
            };
            let val = if del <= ins && del <= sub {
                del
            } else if ins <= sub {
                ins
            } else {
                sub
            };
            cur[j + 1] = val;
            pre = tmp;
            j = j + 1;
        }
        i = i + 1;
    }

    proof {
        assert(long@.take(len_a as int) =~= long@);
        assert(short@.take(len_b as int) =~= short@);
    }
    cur[len_b]
}

/// Computes the Levenshtein distance between two strings, reporting a
/// distance that does not fit in the requested width as an error.
///
/// Returns `Ok` exactly when the distance fits in `U`; the `Err` carries
/// the true distance and the width's limit. The length bounds are a
/// machine limit: the rolling row needs one counter more than the
/// shorter input has characters.
pub fn levenshtein_checked<U: UInt>(a: &str, b: &str) -> (r: Result<U, OverflowError>)
    requires
        a@.len() < usize::MAX,
        b@.len() < usize::MAX,
    ensures
        (edit_distance(a@, b@) <= U::max_value()) == (r is Ok),
        (r matches Ok(v) ==> v.as_nat() == edit_distance(a@, b@)),
        (r matches Err(e) ==> e.value == edit_distance(a@, b@) && e.limit as nat
            == U::max_value()),
{
    let av = chars_of(a);
    let bv = chars_of(b);
    let d: usize = if bv.len() <= av.len() {
        wagner_fischer(&av, &bv)
    } else {
        proof {
            lemma_edit_distance_symmetric(a@, b@);
        }
        wagner_fischer(&bv, &av)
    };
    U::from_count(d)
}

/// Computes the Levenshtein distance between two strings.
///
/// The Levenshtein distance is the minimum number of single-character
/// insertions, deletions and substitutions, each of cost `1`, needed to
/// transform one string into the other. It is computed with the
/// Wagner-Fischer dynamic program over a single rolling row sized to the
/// shorter input, and measured in decoded characters, so a multi-byte
/// character counts as one edit unit. The inputs need not have equal
/// lengths, and either may be empty.
///
/// The distance must fit in the requested output width `U`; use
/// [`levenshtein_checked`] where that is not known in advance.
pub fn levenshtein<U: UInt>(a: &str, b: &str) -> (r: U)
    requires
        a@.len() < usize::MAX,
        b@.len() < usize::MAX,
        edit_distance(a@, b@) <= U::max_value(),
    ensures
        r.as_nat() == edit_distance(a@, b@),
{
    match levenshtein_checked::<U>(a, b) {
        Ok(v) => v,
        Err(_) => unreached(),
    }
}

/// Computes the Hamming distance between two strings, reporting a count
/// that does not fit in the requested width as an error.
///
/// Returns `Ok` exactly when the count fits in `U`; the `Err` carries
/// the true count and the width's limit.
pub fn hamming_checked<U: UInt>(x: &str, y: &str) -> (r: Result<U, OverflowError>)
    ensures
        (hamming_distance(x@, y@) <= U::max_value()) == (r is Ok),
        (r matches Ok(v) ==> v.as_nat() == hamming_distance(x@, y@)),
        (r matches Err(e) ==> e.value == hamming_distance(x@, y@) && e.limit as nat
            == U::max_value()),
{
    let xv = chars_of(x);
    let yv = chars_of(y);
    let n: usize = if xv.len() <= yv.len() {
        xv.len()
    } else {
        yv.len()
    };
    let mut count: usize = 0;
    let mut i: usize = 0;
    while i < n
        invariant
            xv@ == x@,
            yv@ == y@,
            n == (if x@.len() <= y@.len() {
                x@.len()
            } else {
                y@.len()
            }),
            i <= n,
            count <= i,
            count == mismatches_upto(x@, y@, i as int),
        decreases n - i,
    {
        if xv[i] != yv[i] {
            count = count + 1;
        }
        i = i + 1;
    }
    U::from_count(count)
}

/// Computes the Hamming distance between two strings.
///
/// The Hamming distance is the number of positions at which the
/// corresponding characters differ. The inputs need not have equal
/// lengths: positions are compared only up to the length of the shorter
/// string, and trailing excess characters of the longer one are ignored,
/// never penalized.
///
/// The count must fit in the requested output width `U`; use
/// [`hamming_checked`] where that is not known in advance.
pub fn hamming<U: UInt>(x: &str, y: &str) -> (r: U)
    requires
        hamming_distance(x@, y@) <= U::max_value(),
    ensures
        r.as_nat() == hamming_distance(x@, y@),
{
    match hamming_checked::<U>(x, y) {
        Ok(v) => v,
        Err(_) => unreached(),
    }
}

} // verus!
