//! The mathematical model: exact sums over sequences and reduction of an
//! unbounded integer into the range of `i32`.

use vstd::prelude::*;
use vstd::seq_lib::{to_multiset_contains, to_multiset_len, to_multiset_remove};

verus! {

/// The exact sum of the elements of `s`, taken left to right, as an unbounded
/// integer. The empty sequence sums to zero.
pub open spec fn total(s: Seq<i32>) -> int
    decreases s.len(),
{
    if s.len() == 0 {
        0
    } else {
        let n = s.len() - 1;
        total(s.take(n)) + s[n]
    }
}

/// The one value in the range of `i32` that is congruent to `x` modulo 2^32:
/// what two's-complement arithmetic keeps of `x`.
pub open spec fn wrap_i32(x: int) -> int {
    let r = x % 0x1_0000_0000;
    if r <= i32::MAX {
        r
    } else {
        r - 0x1_0000_0000
    }
}

/// Wrapping after every addition gives the same value as wrapping once at the
/// end.
pub proof fn lemma_wrap_absorbs(x: int, y: int)
    ensures
        wrap_i32(wrap_i32(x) + y) == wrap_i32(x + y),
{
}

/// The total of a concatenation is the sum of the totals of its parts.
pub proof fn lemma_total_concat(a: Seq<i32>, b: Seq<i32>)
    ensures
        total(a + b) == total(a) + total(b),
    decreases b.len(),
{
    if b.len() == 0 {
        assert(a + b =~= a);
    } else {
        let n = b.len() - 1;
        assert((a + b).take(a.len() + n) =~= a + b.take(n));
        lemma_total_concat(a, b.take(n));
    }
}

/// Taking one element out of a sequence lowers its total by that element.
pub proof fn lemma_total_remove(s: Seq<i32>, i: int)
    requires
        0 <= i < s.len(),
    ensures
        total(s) == total(s.remove(i)) + s[i],
{
    let front = s.take(i);
    let one = seq![s[i]];
    let back = s.skip(i + 1);
    assert(s =~= front + one + back);
    assert(s.remove(i) =~= front + back);
    assert(total(one) == s[i]) by {
        reveal_with_fuel(total, 2);
    }
    lemma_total_concat(front, one);
    lemma_total_concat(front + one, back);
    lemma_total_concat(front, back);
}

/// Reordering the elements changes neither the exact sum nor, therefore, the
/// wrapped sum: two sequences that hold the same elements the same number of
/// times have the same total.
pub proof fn lemma_total_permutation(a: Seq<i32>, b: Seq<i32>)
    requires
        a.to_multiset() == b.to_multiset(),
    ensures
        total(a) == total(b),
        wrap_i32(total(a)) == wrap_i32(total(b)),
    decreases a.len(),
{
    to_multiset_len(a);
    to_multiset_len(b);
    if a.len() > 0 {
        let n = a.len() - 1;
        let x = a[n];
        assert(a.contains(x));
        to_multiset_contains(a, x);
        to_multiset_contains(b, x);
        let j = b.index_of(x);
        to_multiset_remove(a, n);
        to_multiset_remove(b, j);
        assert(a.remove(n) =~= a.take(n));
        lemma_total_permutation(a.take(n), b.remove(j));
        lemma_total_remove(b, j);
    }
}

} // verus!
