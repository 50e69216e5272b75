//! The bounded rolling window that every monitor averages over.
//!
//! A window is modelled as a plain sequence: samples are appended at the tail
//! and, once the capacity is exceeded, the oldest sample leaves at the head.

use std::collections::VecDeque;
use vstd::prelude::*;

verus! {

/// The window after `sample` has been appended to `window` and the oldest
/// entry evicted if the capacity was exceeded.
pub open spec fn push_bounded<T>(window: Seq<T>, sample: T, capacity: nat) -> Seq<T> {
    let grown = window.push(sample);
    if grown.len() > capacity {
        grown.drop_first()
    } else {
        grown
    }
}

/// The window that results from pushing every element of `samples`, oldest
/// first, into an empty window of the given capacity.
pub open spec fn window_after<T>(samples: Seq<T>, capacity: nat) -> Seq<T>
    decreases samples.len(),
{
    if samples.len() == 0 {
        Seq::empty()
    } else {
        push_bounded(window_after(samples.drop_last(), capacity), samples.last(), capacity)
    }
}

/// The last `count` elements of `samples`, or all of them if there are fewer.
pub open spec fn most_recent<T>(samples: Seq<T>, count: nat) -> Seq<T> {
    if samples.len() <= count {
        samples
    } else {
        samples.subrange(samples.len() - count, samples.len() as int)
    }
}

/// The sum of all values of a sequence.
pub open spec fn sum(values: Seq<u64>) -> nat
    decreases values.len(),
{
    if values.len() == 0 {
        0
    } else {
        sum(values.drop_last()) + values.last() as nat
    }
}

/// The arithmetic mean of a sequence, rounded down; 0 for the empty sequence.
pub open spec fn mean(values: Seq<u64>) -> nat {
    if values.len() == 0 {
        0
    } else {
        sum(values) / values.len()
    }
}

/// Pushing any number of samples into an empty window of capacity at least
/// one leaves exactly the most recent `capacity` of them, in the order in
/// which they were pushed.
pub proof fn lemma_window_is_most_recent<T>(samples: Seq<T>, capacity: nat)
    requires
        capacity >= 1,
    ensures
        window_after(samples, capacity) == most_recent(samples, capacity),
    decreases samples.len(),
{
    if samples.len() > 0 {
        let earlier = samples.drop_last();
        lemma_window_is_most_recent(earlier, capacity);
        assert(window_after(samples, capacity) =~= most_recent(samples, capacity));
    }
}

/// Window eviction: once more samples have been pushed than the window
/// holds, the window holds exactly `capacity` entries, and they are the last
/// `capacity` samples pushed, oldest first.
pub proof fn law_window_eviction<T>(samples: Seq<T>, capacity: nat)
    requires
        capacity >= 1,
        samples.len() > capacity,
    ensures
        window_after(samples, capacity).len() == capacity,
        forall|i: int|
            0 <= i < capacity ==> window_after(samples, capacity)[i] == samples[samples.len()
                - capacity + i],
{
    lemma_window_is_most_recent(samples, capacity);
}

/// A window never holds more samples than its capacity, and never more than
/// were pushed.
pub proof fn law_window_length<T>(samples: Seq<T>, capacity: nat)
    requires
        capacity >= 1,
    ensures
        window_after(samples, capacity).len() == if samples.len() <= capacity {
            samples.len()
        } else {
            capacity
        },
{
    lemma_window_is_most_recent(samples, capacity);
}

/// The sum of at most `2^64` values below `2^64` stays below `2^128`.
pub proof fn lemma_sum_bound(values: Seq<u64>)
    ensures
        sum(values) <= values.len() * 0xffff_ffff_ffff_ffff,
    decreases values.len(),
{
    if values.len() > 0 {
        lemma_sum_bound(values.drop_last());
        assert((values.len() - 1) * 0xffff_ffff_ffff_ffff + 0xffff_ffff_ffff_ffff == values.len()
            * 0xffff_ffff_ffff_ffff) by (nonlinear_arith);
    }
}

/// The mean of a sequence lies between 0 and the largest `u64`.
pub proof fn lemma_mean_bound(values: Seq<u64>)
    ensures
        mean(values) <= 0xffff_ffff_ffff_ffff,
{
    if values.len() > 0 {
        lemma_sum_bound(values);
        let n = values.len() as int;
        let s = sum(values) as int;
        assert(s / n <= 0xffff_ffff_ffff_ffff) by (nonlinear_arith)
            requires
                n > 0,
                0 <= s <= n * 0xffff_ffff_ffff_ffff,
        ;
    }
}

/// Appends `sample` to `window` and evicts the oldest entry if the window
/// then holds more than `capacity` samples.
pub fn push_sample<T>(window: &mut VecDeque<T>, sample: T, capacity: usize)
    ensures
        final(window)@ == push_bounded(old(window)@, sample, capacity as nat),
{
    window.push_back(sample);
    if window.len() > capacity {
        let _ = window.pop_front();
    }
}

/// The mean of the samples in `window`, rounded down.
pub fn mean_of(window: &VecDeque<u64>) -> (average: u64)
    requires
        window@.len() > 0,
    ensures
        average == mean(window@),
{
    let count: usize = window.len();
    let mut total: u128 = 0;
    let mut i: usize = 0;
    while i < count
        invariant
            count == window@.len(),
            i <= count,
            total == sum(window@.take(i as int)),
        decreases count - i,
    {
        proof {
            let prefix = window@.take(i as int + 1);
            assert(prefix.drop_last() =~= window@.take(i as int));
            lemma_sum_bound(prefix);
            assert(prefix.len() * 0xffff_ffff_ffff_ffff <= 0xffff_ffff_ffff_ffff
                * 0xffff_ffff_ffff_ffff) by (nonlinear_arith)
                requires
                    prefix.len() <= 0xffff_ffff_ffff_ffff,
            ;
        }
        total = total + window[i] as u128;
        i = i + 1;
    }
    proof {
        assert(window@.take(count as int) =~= window@);
        lemma_mean_bound(window@);
    }
    (total / count as u128) as u64
}

/// A sample that holds two counters, one for each direction of a flow.
pub trait PairSample: Sized {
    /// The counter of the first direction.
    spec fn first(&self) -> u64;

    /// The counter of the second direction.
    spec fn second(&self) -> u64;

    /// The counter of the first direction.
    fn get_first(&self) -> (value: u64)
        ensures
            value == self.first(),
    ;

    /// The counter of the second direction.
    fn get_second(&self) -> (value: u64)
        ensures
            value == self.second(),
    ;
}

/// The counters of the first direction of a sequence of samples.
pub open spec fn firsts<T: PairSample>(samples: Seq<T>) -> Seq<u64> {
    samples.map_values(|sample: T| sample.first())
}

/// The counters of the second direction of a sequence of samples.
pub open spec fn seconds<T: PairSample>(samples: Seq<T>) -> Seq<u64> {
    samples.map_values(|sample: T| sample.second())
}

/// The means of the two directions of the samples in `window`, each on its
/// own and rounded down.
pub fn means_of<T: PairSample>(window: &VecDeque<T>) -> (averages: (u64, u64))
    requires
        window@.len() > 0,
    ensures
        averages.0 == mean(firsts(window@)),
        averages.1 == mean(seconds(window@)),
{
    let count: usize = window.len();
    let mut total_first: u128 = 0;
    let mut total_second: u128 = 0;
    let mut i: usize = 0;
    while i < count
        invariant
            count == window@.len(),
            i <= count,
            total_first == sum(firsts(window@).take(i as int)),
            total_second == sum(seconds(window@).take(i as int)),
        decreases count - i,
    {
        proof {
            let first_prefix = firsts(window@).take(i as int + 1);
            let second_prefix = seconds(window@).take(i as int + 1);
            assert(first_prefix.drop_last() =~= firsts(window@).take(i as int));
            assert(second_prefix.drop_last() =~= seconds(window@).take(i as int));
            lemma_sum_bound(first_prefix);
            lemma_sum_bound(second_prefix);
            assert((i + 1) * 0xffff_ffff_ffff_ffff <= 0xffff_ffff_ffff_ffff
                * 0xffff_ffff_ffff_ffff) by (nonlinear_arith)
                requires
                    i + 1 <= 0xffff_ffff_ffff_ffff,
            ;
        }
        let sample = &window[i];
        total_first = total_first + sample.get_first() as u128;
        total_second = total_second + sample.get_second() as u128;
        i = i + 1;
    }
    proof {
        assert(firsts(window@).take(count as int) =~= firsts(window@));
        assert(seconds(window@).take(count as int) =~= seconds(window@));
        lemma_mean_bound(firsts(window@));
        lemma_mean_bound(seconds(window@));
    }
    ((total_first / count as u128) as u64, (total_second / count as u128) as u64)
}

} // verus!
