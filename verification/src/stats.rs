//! Sum, largest and smallest of a list of numbers.

use vstd::prelude::*;

verus! {

/// The sum of the numbers, as a mathematical integer.
pub open spec fn sum_of(data: Seq<i32>) -> int
    decreases data.len(),
{
    if data.len() == 0 {
        0
    } else {
        sum_of(data.drop_last()) + data.last()
    }
}

/// Every sum of the first `k` numbers fits in an `i32`, so that the sum can
/// be built up from left to right.
pub open spec fn sums_fit(data: Seq<i32>) -> bool {
    forall|k: int|
        0 <= k <= data.len() ==> i32::MIN <= #[trigger] sum_of(data.take(k)) <= i32::MAX
}

/// What is known of a list of numbers at a glance.
#[derive(Clone, Copy, Debug, PartialEq, Eq)]
pub struct Summary {
    pub sum: i32,
    pub max: i32,
    pub min: i32,
}

impl Summary {
    /// The summary is that of `data`: the sum is the sum of all numbers, the
    /// largest and the smallest each occur in the list and bound it.
    pub open spec fn describes(self, data: Seq<i32>) -> bool {
        &&& self.sum == sum_of(data)
        &&& data.contains(self.max)
        &&& data.contains(self.min)
        &&& forall|i: int| 0 <= i < data.len() ==> self.min <= #[trigger] data[i] <= self.max
    }
}

/// Summarises a list that is not empty and whose running sum stays in range.
pub fn summarize(data: &[i32]) -> (summary: Summary)
    requires
        data@.len() > 0,
        sums_fit(data@),
    ensures
        summary.describes(data@),
{
    let mut sum: i32 = 0;
    let mut max: i32 = data[0];
    let mut min: i32 = data[0];
    let mut i: usize = 0;
    while i < data.len()
        invariant
            i <= data@.len(),
            data@.len() > 0,
            sums_fit(data@),
            sum == sum_of(data@.take(i as int)),
            data@.contains(max),
            data@.contains(min),
            forall|j: int| 0 <= j < i ==> min <= #[trigger] data@[j] <= max,
        decreases data.len() - i,
    {
        proof {
            assert(data@.take(i + 1).drop_last() =~= data@.take(i as int));
            assert(i32::MIN <= sum_of(data@.take(i + 1)) <= i32::MAX);
        }
        sum = sum + data[i];
        if data[i] > max {
            max = data[i];
        }
        if data[i] < min {
            min = data[i];
        }
        i += 1;
    }
    proof {
        assert(data@.take(i as int) =~= data@);
    }
    Summary { sum, max, min }
}

} // verus!
