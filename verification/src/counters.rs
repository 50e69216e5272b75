//! Arithmetic on kernel counters: sums that stop at the largest `u64` and
//! differences that stop at zero.

use crate::text::{decimal_u64, parse_u64};
use crate::window::sum;
use vstd::prelude::*;

verus! {

/// `n` as a `u64`, or `u64::MAX` if `n` is larger than that.
pub open spec fn saturated(n: nat) -> u64 {
    if n <= u64::MAX {
        n as u64
    } else {
        u64::MAX
    }
}

/// How far a counter has advanced from `previous` to `current`; zero if it
/// has gone backwards.
pub open spec fn clamped_delta(current: u64, previous: u64) -> u64 {
    if current >= previous {
        (current - previous) as u64
    } else {
        0
    }
}

/// The total that a delta is taken against: the previous total, or the
/// current one while both previous totals of a monitor are still zero, as
/// they are before its first poll. That keeps the activity since boot out of
/// the first sample.
pub open spec fn baseline(previous: u64, other_previous: u64, current: u64) -> u64 {
    if previous == 0 && other_previous == 0 {
        current
    } else {
        previous
    }
}

/// The counter that a column of a kernel table holds: the number it denotes
/// in decimal, or zero if it denotes none that fits a `u64`.
pub open spec fn counter_of(field: Seq<char>) -> u64 {
    match decimal_u64(field) {
        Some(value) => value,
        None => 0,
    }
}

/// The counters that the columns of a row hold.
pub open spec fn counters_of(fields: Seq<Seq<char>>) -> Seq<u64> {
    fields.map_values(|field: Seq<char>| counter_of(field))
}

/// Counter-decrease clamp: a counter that has gone backwards between two
/// readings, as after a reset, yields a delta of zero; one that has not
/// yields the exact difference.
pub proof fn law_delta_is_clamped(current: u64, previous: u64)
    ensures
        current < previous ==> clamped_delta(current, previous) == 0,
        current >= previous ==> clamped_delta(current, previous) == current - previous,
        0 <= clamped_delta(current, previous) <= current,
{
}

/// First-poll guard: a monitor that has seen nothing yet takes its deltas
/// against the totals that it has just read, so its first sample is zero.
pub proof fn law_first_sample_is_zero(current: u64)
    ensures
        clamped_delta(current, baseline(0, 0, current)) == 0,
{
}

/// How far a counter has advanced from `previous` to `current`; zero if it
/// has gone backwards.
pub fn delta(current: u64, previous: u64) -> (advance: u64)
    ensures
        advance == clamped_delta(current, previous),
{
    current.saturating_sub(previous)
}

/// The counter that a column holds: its decimal value, or zero.
pub fn parse_counter(field: &Vec<char>) -> (value: u64)
    ensures
        value == counter_of(field@),
{
    match parse_u64(field) {
        Some(value) => value,
        None => 0,
    }
}

/// The sum of `values`, stopping at `u64::MAX`.
pub fn saturating_sum(values: &Vec<u64>) -> (total: u64)
    ensures
        total == saturated(sum(values@)),
{
    let mut total: u64 = 0;
    let mut i: usize = 0;
    while i < values.len()
        invariant
            i <= values@.len(),
            total == saturated(sum(values@.take(i as int))),
        decreases values@.len() - i,
    {
        assert(values@.take(i + 1).drop_last() =~= values@.take(i as int));
        total = total.saturating_add(values[i]);
        i = i + 1;
    }
    assert(values@.take(values@.len() as int) =~= values@);
    total
}

/// The sum of the values at the positions that are selected.
pub open spec fn selected_sum(values: Seq<u64>, selected: Seq<bool>) -> nat
    decreases values.len(),
{
    if values.len() == 0 {
        0
    } else {
        selected_sum(values.drop_last(), selected.drop_last()) + if selected.last() {
            values.last() as nat
        } else {
            0
        }
    }
}

/// Device filtering: a device that the classifier turns down contributes
/// nothing to the total, whatever its counter holds.
pub proof fn law_unselected_contributes_nothing(
    values: Seq<u64>,
    selected: Seq<bool>,
    position: int,
    other: u64,
)
    requires
        values.len() == selected.len(),
        0 <= position < values.len(),
        !selected[position],
    ensures
        selected_sum(values.update(position, other), selected) == selected_sum(values, selected),
    decreases values.len(),
{
    let changed = values.update(position, other);
    if position == values.len() - 1 {
        assert(changed.drop_last() =~= values.drop_last());
    } else {
        law_unselected_contributes_nothing(
            values.drop_last(),
            selected.drop_last(),
            position,
            other,
        );
        assert(changed.drop_last() =~= values.drop_last().update(position, other));
    }
}

/// Device filtering: the total is made of the counters of the devices that
/// the classifier accepts and of nothing else, so a device that is added
/// changes it by its counter if it is accepted and not at all if it is not.
pub proof fn law_total_counts_selected_only(
    values: Seq<u64>,
    selected: Seq<bool>,
    value: u64,
    accepted: bool,
)
    requires
        values.len() == selected.len(),
    ensures
        selected_sum(values.push(value), selected.push(accepted)) == selected_sum(values, selected)
            + if accepted {
            value as nat
        } else {
            0
        },
{
    assert(values.push(value).drop_last() =~= values);
    assert(selected.push(accepted).drop_last() =~= selected);
}

/// The sum of the values at the positions that are selected, stopping at
/// `u64::MAX`.
pub fn saturating_selected_sum(values: &Vec<u64>, selected: &Vec<bool>) -> (total: u64)
    requires
        values@.len() == selected@.len(),
    ensures
        total == saturated(selected_sum(values@, selected@)),
{
    let mut total: u64 = 0;
    let mut i: usize = 0;
    while i < values.len()
        invariant
            values@.len() == selected@.len(),
            i <= values@.len(),
            total == saturated(selected_sum(values@.take(i as int), selected@.take(i as int))),
        decreases values@.len() - i,
    {
        assert(values@.take(i + 1).drop_last() =~= values@.take(i as int));
        assert(selected@.take(i + 1).drop_last() =~= selected@.take(i as int));
        if selected[i] {
            total = total.saturating_add(values[i]);
        }
        i = i + 1;
    }
    assert(values@.take(values@.len() as int) =~= values@);
    assert(selected@.take(selected@.len() as int) =~= selected@);
    total
}

} // verus!
