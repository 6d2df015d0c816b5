use foc_core::filters::{insertion_sort, AverageFilter, MedianFilter};
use foc_core::fixed::ONE;
use foc_core::ring_buffer::RingBuffer;

#[test]
fn ring_buffer_reads_back_in_insertion_order() {
    let mut rb = RingBuffer::<4, i32>::new([9, 9, 9, 9]);
    for v in [1, 2, 3, 4] {
        rb.insert(v);
    }
    for i in 0..4 {
        assert_eq!(*rb.index(i), i as i32 + 1);
    }
}

#[test]
fn ring_buffer_insert_overwrites_oldest() {
    let mut rb = RingBuffer::<3, i32>::new([10, 20, 30]);
    rb.insert(1);
    assert_eq!(*rb.index(0), 20);
    assert_eq!(*rb.index(2), 1);
    assert_eq!(rb.copy(), [20, 30, 1]);
    rb.insert(2);
    rb.insert(3);
    rb.insert(4);
    assert_eq!(rb.copy(), [2, 3, 4]);
}

#[test]
fn ring_buffer_index_mut_writes_logical_slot() {
    let mut rb = RingBuffer::<3, i32>::new([10, 20, 30]);
    rb.insert(40);
    *rb.index_mut(0) = 7;
    assert_eq!(rb.copy(), [7, 30, 40]);
}

#[test]
fn median_of_odd_window() {
    let mut f = MedianFilter::<5>::new([0; 5]);
    let mut out = 0;
    for v in [1, 2, 3, 4, 5] {
        out = f.run(v);
    }
    assert_eq!(out, 3);
}

#[test]
fn median_of_even_window_averages_central_pair() {
    let mut f = MedianFilter::<4>::new([0; 4]);
    assert_eq!(f.run(ONE), 0);
    f.run(2 * ONE);
    f.run(3 * ONE);
    assert_eq!(f.run(4 * ONE), 5 * ONE / 2);
}

#[test]
fn median_ignores_order_of_arrival() {
    let mut f = MedianFilter::<5>::new([0; 5]);
    let mut out = 0;
    for v in [50, -7, 12, 3, 9] {
        out = f.run(v);
    }
    assert_eq!(out, 9);
}

#[test]
fn average_converges_on_fourth_sample() {
    let mut f = AverageFilter::<4>::new([0; 4]);
    assert_eq!(f.run(ONE), ONE / 4);
    assert_eq!(f.run(ONE), ONE / 2);
    assert_eq!(f.run(ONE), 3 * ONE / 4);
    assert_eq!(f.run(ONE), ONE);
}

#[test]
fn average_truncates_toward_zero() {
    let mut f = AverageFilter::<3>::new([0; 3]);
    assert_eq!(f.run(-5), -1);
    assert_eq!(f.run(7), 0);
}

#[test]
fn average_of_extreme_samples_fits() {
    let mut f = AverageFilter::<2>::new([i32::MAX; 2]);
    assert_eq!(f.run(i32::MAX), i32::MAX);
    let mut g = AverageFilter::<2>::new([i32::MIN; 2]);
    assert_eq!(g.run(i32::MIN), i32::MIN);
}

#[test]
fn insertion_sort_orders_with_duplicates() {
    let mut a = [5, -1, 3, 3, 0];
    insertion_sort(&mut a);
    assert_eq!(a, [-1, 0, 3, 3, 5]);
    let mut empty: [i32; 0] = [];
    insertion_sort(&mut empty);
    assert_eq!(empty, []);
}
