//! A small accumulator used to collect partial sums computed elsewhere,
//! together with the closed form of a contiguous integer sum.
use vstd::prelude::*;

verus! {

/// An accumulator for `i32` partial sums.
pub struct Wrapper {
    value: i32,
}

impl Wrapper {
    /// The accumulated value, for use in contracts.
    pub closed spec fn spec_value(&self) -> i32 {
        self.value
    }

    /// A fresh accumulator holding zero.
    pub fn new() -> (w: Wrapper)
        ensures
            w.spec_value() == 0,
    {
        Wrapper { value: 0 }
    }

    /// Adds `to_add` to the accumulated value.
    pub fn add(&mut self, to_add: i32)
        requires
            i32::MIN <= old(self).spec_value() + to_add <= i32::MAX,
        ensures
            final(self).spec_value() == old(self).spec_value() + to_add,
    {
        self.value = self.value + to_add;
    }

    /// The accumulated value.
    #[verifier::when_used_as_spec(spec_value)]
    pub fn value(&self) -> (v: i32)
        ensures
            v == self.spec_value(),
    {
        self.value
    }
}

/// The sum of the `count` consecutive integers starting at `start`.
pub open spec fn range_sum_spec(start: int, count: nat) -> int
    decreases count,
{
    if count == 0 {
        0
    } else {
        range_sum_spec(start, (count - 1) as nat) + start + count - 1
    }
}

/// The closed form of the sum, stated without a division: twice the sum
/// of `count` integers from `start` is `count * (2 * start + count - 1)`.
pub proof fn lemma_range_sum_closed_form(start: int, count: nat)
    ensures
        2 * range_sum_spec(start, count) == count * (2 * start + count - 1),
    decreases count,
{
    if count > 0 {
        lemma_range_sum_closed_form(start, (count - 1) as nat);
        assert(2 * range_sum_spec(start, (count - 1) as nat) == (count - 1) * (2 * start + count
            - 2));
        assert(range_sum_spec(start, count) == range_sum_spec(start, (count - 1) as nat) + start
            + count - 1);
        assert((count - 1) * (2 * start + count - 2) + 2 * (start + count - 1) == count * (2
            * start + count - 1)) by (nonlinear_arith);
    } else {
        assert(count * (2 * start + count - 1) == 0) by (nonlinear_arith)
            requires
                count == 0,
        ;
    }
}

/// For a non-negative start, longer ranges sum to no less.
pub proof fn lemma_range_sum_monotone(start: int, a: nat, b: nat)
    requires
        start >= 0,
        a <= b,
    ensures
        range_sum_spec(start, a) <= range_sum_spec(start, b),
    decreases b,
{
    if a < b {
        lemma_range_sum_monotone(start, a, (b - 1) as nat);
    }
}

/// Sums the `count` consecutive integers starting at `start`, as one
/// parallel worker does before handing its partial sum to a shared
/// accumulator.
pub fn range_sum(start: i32, count: u32) -> (s: i32)
    requires
        start >= 0,
        start + count <= i32::MAX,
        range_sum_spec(start as int, count as nat) <= i32::MAX,
    ensures
        s == range_sum_spec(start as int, count as nat),
{
    let mut sum: i32 = 0;
    let mut i: u32 = 0;
    while i < count
        invariant
            0 <= i <= count,
            start >= 0,
            start + count <= i32::MAX,
            range_sum_spec(start as int, count as nat) <= i32::MAX,
            sum == range_sum_spec(start as int, i as nat),
        decreases count - i,
    {
        proof {
            lemma_range_sum_monotone(start as int, (i + 1) as nat, count as nat);
        }
        sum = sum + (start + i as i32);
        i = i + 1;
    }
    sum
}

} // verus!
