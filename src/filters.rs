//! Sliding-window average and median filters over integer samples.
use vstd::prelude::*;
use vstd::relations::{sorted_by, total_ordering};
use vstd::seq_lib::lemma_sorted_unique;
use vstd::arithmetic::div_mod::lemma_div_by_multiple;
use crate::fixed::{div_trunc, div_trunc_exec, lemma_div_trunc_bounds};
use crate::ring_buffer::{insert_all, lemma_fill_in_order};
use crate::ring_buffer::RingBuffer;

verus! {

broadcast use vstd::seq_lib::group_to_multiset_ensures, vstd::multiset::group_multiset_axioms,
    RingBuffer::lemma_view_len;

/// Sum of a sequence of samples.
pub open spec fn sum(s: Seq<i32>) -> int
    decreases s.len(),
{
    if s.len() == 0 {
        0
    } else {
        sum(s.drop_last()) + s.last()
    }
}

/// Arithmetic mean of a non-empty window, truncated toward zero.
pub open spec fn mean(s: Seq<i32>) -> int {
    div_trunc(sum(s), s.len() as int)
}

/// The order in which windows are sorted.
pub open spec fn sample_le() -> spec_fn(i32, i32) -> bool {
    |a: i32, b: i32| a <= b
}

/// Median of a sorted non-empty window: the central element, or the mean of the two
/// central elements (truncated toward zero) when the length is even.
pub open spec fn median_of_sorted(s: Seq<i32>) -> int {
    let h = (s.len() / 2) as int;
    if s.len() % 2 == 0 {
        div_trunc(s[h - 1] + s[h], 2)
    } else {
        s[h] as int
    }
}

/// Median of a non-empty window.
pub open spec fn median(s: Seq<i32>) -> int {
    median_of_sorted(s.sort_by(sample_le()))
}

proof fn lemma_sum_bounds(s: Seq<i32>)
    ensures
        s.len() * (i32::MIN as int) <= sum(s) <= s.len() * (i32::MAX as int),
    decreases s.len(),
{
    if s.len() > 0 {
        lemma_sum_bounds(s.drop_last());
        assert(s.len() * (i32::MIN as int) == (s.len() - 1) * (i32::MIN as int) + i32::MIN)
            by (nonlinear_arith);
        assert(s.len() * (i32::MAX as int) == (s.len() - 1) * (i32::MAX as int) + i32::MAX)
            by (nonlinear_arith);
    }
}

/// Sorts `array` into ascending order by insertion.
pub fn insertion_sort<const SIZE: usize>(array: &mut [i32; SIZE])
    ensures
        sorted_by(final(array)@, sample_le()),
        final(array)@.to_multiset() == old(array)@.to_multiset(),
{
    let ghost original = array@;
    let mut i: usize = 0;
    while i < SIZE
        invariant
            i <= SIZE,
            array@.len() == SIZE,
            forall|a: int, b: int| 0 <= a < b < i ==> array@[a] <= array@[b],
            array@.to_multiset() == original.to_multiset(),
        decreases SIZE - i,
    {
        let mut j: usize = i;
        while j > 0 && array[j - 1] > array[j]
            invariant
                i < SIZE,
                j <= i,
                array@.len() == SIZE,
                forall|a: int, b: int|
                    0 <= a < b <= i && a != j && b != j ==> array@[a] <= array@[b],
                forall|b: int| j < b <= i ==> array@[j as int] <= array@[b],
                array@.to_multiset() == original.to_multiset(),
            decreases j,
        {
            let ghost before = array@;
            let t = array[j - 1];
            array[j - 1] = array[j];
            array[j] = t;
            proof {
                let mid = before.update(j - 1, before[j as int]);
                assert(array@ == mid.update(j as int, before[j - 1]));
                assert(mid.to_multiset() =~= before.to_multiset().insert(before[j as int]).remove(
                    before[j - 1],
                ));
                assert(array@.to_multiset() =~= mid.to_multiset().insert(before[j - 1]).remove(
                    before[j as int],
                ));
                assert(array@.to_multiset() =~= before.to_multiset());
            }
            j -= 1;
        }
        i += 1;
    }
}

/// Sorting a window with [`insertion_sort`] gives the sorted order that [`median`] reads.
proof fn lemma_sorted_is_sort_by(s: Seq<i32>, t: Seq<i32>)
    requires
        sorted_by(t, sample_le()),
        t.to_multiset() == s.to_multiset(),
    ensures
        t == s.sort_by(sample_le()),
{
    s.lemma_sort_by_ensures(sample_le());
    assert(total_ordering(sample_le()));
    lemma_sorted_unique(t, s.sort_by(sample_le()), sample_le());
}

/// Mean of the last `SIZE` samples.
pub struct AverageFilter<const SIZE: usize> {
    /// Sliding window of samples
    data: RingBuffer<SIZE, i32>,
}

impl<const SIZE: usize> AverageFilter<SIZE> {
    /// The window is well formed.
    pub closed spec fn wf(&self) -> bool {
        self.data.wf()
    }

    /// The samples in the window, oldest first.
    pub closed spec fn window(&self) -> Seq<i32> {
        self.data.view()
    }

    /// The window holds `SIZE` samples.
    pub broadcast proof fn lemma_window_len(&self)
        ensures
            #[trigger] self.window().len() == SIZE,
    {
    }

    /// Creates the filter with a full window of `initial_values`.
    pub fn new(initial_values: [i32; SIZE]) -> (r: Self)
        ensures
            r.wf(),
            r.window() == initial_values@,
            r.window().len() == SIZE,
    {
        Self { data: RingBuffer::new(initial_values) }
    }

    /// Pushes `new_value` out of the window's oldest sample and returns the window's mean.
    pub fn run(&mut self, new_value: i32) -> (r: i32)
        requires
            old(self).wf(),
            SIZE > 0,
        ensures
            final(self).wf(),
            final(self).window().len() == SIZE,
            final(self).window() == old(self).window().drop_first().push(new_value),
            r == mean(final(self).window()),
    {
        self.data.insert(new_value);
        let ghost w = self.data.view();
        let mut total: i128 = 0;
        let mut i: usize = 0;
        while i < SIZE
            invariant
                self.data.wf(),
                w == self.data.view(),
                w.len() == SIZE,
                i <= SIZE,
                total == sum(w.subrange(0, i as int)),
            decreases SIZE - i,
        {
            proof {
                lemma_sum_bounds(w.subrange(0, i as int));
                assert(w.subrange(0, i + 1).drop_last() =~= w.subrange(0, i as int));
                assert(i * (i32::MAX as int) <= (usize::MAX as int) * (i32::MAX as int))
                    by (nonlinear_arith)
                    requires
                        i <= usize::MAX,
                ;
                assert(i * (i32::MIN as int) >= (usize::MAX as int) * (i32::MIN as int))
                    by (nonlinear_arith)
                    requires
                        i <= usize::MAX,
                ;
            }
            total = total + *self.data.index(i) as i128;
            i += 1;
        }
        proof {
            assert(w.subrange(0, SIZE as int) =~= w);
            lemma_sum_bounds(w);
            lemma_div_trunc_bounds(total as int, SIZE as int, i32::MIN as int, i32::MAX as int);
        }
        div_trunc_exec(total, SIZE as i128) as i32
    }
}

/// Median of the last `SIZE` samples.
pub struct MedianFilter<const SIZE: usize> {
    /// Sliding window of samples
    data: RingBuffer<SIZE, i32>,
}

impl<const SIZE: usize> MedianFilter<SIZE> {
    /// The window is well formed.
    pub closed spec fn wf(&self) -> bool {
        self.data.wf()
    }

    /// The samples in the window, oldest first.
    pub closed spec fn window(&self) -> Seq<i32> {
        self.data.view()
    }

    /// The window holds `SIZE` samples.
    pub broadcast proof fn lemma_window_len(&self)
        ensures
            #[trigger] self.window().len() == SIZE,
    {
    }

    /// Creates the filter with a full window of `initial_values`.
    pub fn new(initial_values: [i32; SIZE]) -> (r: Self)
        ensures
            r.wf(),
            r.window() == initial_values@,
            r.window().len() == SIZE,
    {
        Self { data: RingBuffer::new(initial_values) }
    }

    /// Pushes `new_value` out of the window's oldest sample and returns the window's median.
    pub fn run(&mut self, new_value: i32) -> (r: i32)
        requires
            old(self).wf(),
            SIZE > 0,
        ensures
            final(self).wf(),
            final(self).window().len() == SIZE,
            final(self).window() == old(self).window().drop_first().push(new_value),
            r == median(final(self).window()),
    {
        self.data.insert(new_value);
        let mut data = self.data.copy();
        insertion_sort(&mut data);
        proof {
            lemma_sorted_is_sort_by(self.data.view(), data@);
        }
        if SIZE % 2 == 0 {
            let lo = data[SIZE / 2 - 1] as i128;
            let hi = data[SIZE / 2] as i128;
            proof {
                lemma_div_trunc_bounds(lo + hi, 2, i32::MIN as int, i32::MAX as int);
            }
            div_trunc_exec(lo + hi, 2) as i32
        } else {
            data[SIZE / 2]
        }
    }
}

/// `n` copies of `x`.
pub open spec fn constant(x: i32, n: nat) -> Seq<i32> {
    Seq::new(n, |i: int| x)
}

proof fn lemma_sum_constant(x: i32, n: nat)
    ensures
        sum(constant(x, n)) == n * x,
    decreases n,
{
    if n > 0 {
        let s = constant(x, n);
        lemma_sum_constant(x, (n - 1) as nat);
        assert(s.drop_last() =~= constant(x, (n - 1) as nat));
        assert(s.last() == x);
        assert(sum(s) == sum(s.drop_last()) + s.last());
        assert(n * x == (n - 1) * x + x) by (nonlinear_arith);
    } else {
        assert(constant(x, n).len() == 0);
    }
}

/// Feeding an average filter of `n` samples `n` times the value `x` makes its output `x`,
/// whatever the window held before.
pub proof fn lemma_average_settles(window: Seq<i32>, x: i32)
    requires
        window.len() > 0,
    ensures
        mean(insert_all(window, constant(x, window.len()))) == x,
{
    let n = window.len();
    let xs = constant(x, n);
    lemma_fill_in_order(window, xs);
    lemma_sum_constant(x, n);
    if x >= 0 {
        lemma_div_by_multiple(x as int, n as int);
    } else {
        lemma_div_by_multiple(-x, n as int);
        assert(-(n * x) == (-x) * n) by (nonlinear_arith);
    }
    assert(n * x == x * n) by (nonlinear_arith);
}

} // verus!
