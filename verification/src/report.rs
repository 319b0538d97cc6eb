//! The ownership walk-through: build a vector, sum it through a shared
//! borrow, hand the vector over to a new owner, and report what was found.

use vstd::prelude::*;
use crate::decimal::{decimal, push_decimal, push_signed_decimal, signed_decimal};
use crate::math::{total, wrap_i32};
use crate::summation::sum;

verus! {

/// What the walk-through found out about a vector.
#[derive(Clone, Copy, Debug, PartialEq, Eq)]
pub struct Report {
    /// The wrapped sum of the elements.
    pub sum: i32,
    /// The number of elements, read from the vector's last owner.
    pub len: usize,
}

impl Report {
    /// The two lines of the report, each ended by a line feed.
    pub open spec fn text(self) -> Seq<char> {
        "sum = "@ + signed_decimal(self.sum as int) + "\n"@
            + "len = "@ + decimal(self.len as nat) + "\n"@
    }

    /// Writes the report out as text.
    pub fn render(&self) -> (out: String)
        ensures
            out@ == self.text(),
    {
        let mut out = String::new();
        out.append("sum = ");
        push_signed_decimal(&mut out, self.sum);
        out.append("\n");
        out.append("len = ");
        push_decimal(&mut out, self.len as u64);
        out.append("\n");
        out
    }
}

/// A vector with room for five elements, holding the numbers one to five in
/// order.
pub fn one_to_five() -> (v: Vec<i32>)
    ensures
        v@ == seq![1i32, 2, 3, 4, 5],
{
    let mut v: Vec<i32> = Vec::with_capacity(5);
    v.extend_from_slice(&[1, 2, 3, 4, 5]);
    v
}

/// Sums `v` through a shared borrow, then moves it to a new owner and reads
/// its length there.
///
/// The move changes nothing about the vector: the length read from the new
/// owner is the length the vector had when it was handed in.
pub fn summarize(v: Vec<i32>) -> (report: Report)
    ensures
        report.sum == wrap_i32(total(v@)),
        report.len == v@.len(),
{
    let wrapped = sum(&v);
    let moved = v;
    Report { sum: wrapped, len: moved.len() }
}

/// Runs the walk-through on the numbers one to five and returns the text of
/// its report.
pub fn run() -> (out: String)
    ensures
        out@ == "sum = 15\nlen = 5\n"@,
{
    let report = summarize(one_to_five());
    proof {
        let s = seq![1i32, 2, 3, 4, 5];
        assert(total(s) == 15) by {
            reveal_with_fuel(total, 6);
            assert(s.take(4).take(3).take(2).take(1).take(0).len() == 0);
        }
        assert(signed_decimal(15) =~= seq!['1', '5']) by {
            reveal_with_fuel(decimal, 2);
        }
        reveal_strlit("sum = ");
        reveal_strlit("len = ");
        reveal_strlit("\n");
        reveal_strlit("sum = 15\nlen = 5\n");
        assert(report.text() =~= "sum = 15\nlen = 5\n"@);
    }
    report.render()
}

} // verus!
