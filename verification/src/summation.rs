//! The executable summation routine.

use vstd::prelude::*;
use crate::math::{lemma_wrap_absorbs, total, wrap_i32};

verus! {

/// Adds up the elements of `slice` from left to right.
///
/// Overflow wraps around: the result is the exact sum reduced modulo 2^32
/// into the range of `i32`. Whenever the exact sum fits in an `i32`, the
/// result is that sum. The empty slice sums to zero.
pub fn sum(slice: &[i32]) -> (result: i32)
    ensures
        result == wrap_i32(total(slice@)),
        i32::MIN <= total(slice@) <= i32::MAX ==> result == total(slice@),
{
    let mut acc: i32 = 0;
    let mut i: usize = 0;
    while i < slice.len()
        invariant
            i <= slice.len(),
            acc == wrap_i32(total(slice@.take(i as int))),
        decreases slice.len() - i,
    {
        proof {
            let next = slice@.take(i + 1);
            assert(next.take(i as int) =~= slice@.take(i as int));
            lemma_wrap_absorbs(total(slice@.take(i as int)), slice@[i as int] as int);
        }
        acc = acc.wrapping_add(slice[i]);
        i += 1;
    }
    proof {
        assert(slice@.take(slice.len() as int) =~= slice@);
    }
    acc
}

} // verus!
