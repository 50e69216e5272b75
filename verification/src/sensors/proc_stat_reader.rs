//! The aggregate CPU line of `/proc/stat`.

use crate::counters::{counters_of, parse_counter, saturated, saturating_sum};
use crate::text::{
    chars_of, fields, has_prefix, lines, lines_of, slice_of, split_whitespace, starts_with, views,
};
use crate::window::sum;
use vstd::prelude::*;

verus! {

/// The column of the aggregate CPU line that counts idle ticks.
pub const PROC_STAT_IDLE_INDEX: usize = 3;

/// The column of the aggregate CPU line that counts ticks spent waiting for
/// I/O.
pub const PROC_STAT_IOWAIT_INDEX: usize = 4;

/// One reading of the CPU tick counters.
#[derive(Default, Clone, Copy, Debug, PartialEq, Eq, Structural)]
pub struct ProcStatStatus {
    /// Ticks spent idle.
    pub idle: u64,
    /// Ticks spent waiting for I/O to complete.
    pub iowait: u64,
    /// Ticks spent in any state.
    pub total: u64,
}

impl ProcStatStatus {
    /// A reading with the given counters.
    pub fn new(idle: u64, iowait: u64, total: u64) -> (status: Self)
        ensures
            status == (ProcStatStatus { idle, iowait, total }),
    {
        ProcStatStatus { idle, iowait, total }
    }
}

/// The prefix of the aggregate CPU line.
pub open spec fn cpu_line_prefix() -> Seq<char> {
    seq!['c', 'p', 'u', ' ']
}

/// The reading that an aggregate CPU line denotes. The line begins with
/// `cpu` and a space, followed by at least five columns. A column that is no
/// decimal number counts as zero, and the total is the sum of all columns,
/// stopping at `u64::MAX`. Any other line denotes no reading.
pub open spec fn cpu_line(line: Seq<char>) -> Option<ProcStatStatus> {
    if has_prefix(line, cpu_line_prefix()) {
        let values = counters_of(fields(line.skip(4)));
        if values.len() > PROC_STAT_IOWAIT_INDEX {
            Some(
                ProcStatStatus {
                    idle: values[PROC_STAT_IDLE_INDEX as int],
                    iowait: values[PROC_STAT_IOWAIT_INDEX as int],
                    total: saturated(sum(values)),
                },
            )
        } else {
            None
        }
    } else {
        None
    }
}

/// The first line of a text, or the empty line if the text has none.
pub open spec fn first_line(contents: Seq<char>) -> Seq<char> {
    if lines_of(contents).len() > 0 {
        lines_of(contents)[0]
    } else {
        Seq::empty()
    }
}

/// The parser of `/proc/stat`.
#[derive(Default)]
pub struct ProcStatSensorReader;

impl ProcStatSensorReader {
    /// Parses the aggregate CPU line. Fails exactly on the lines that denote
    /// no reading.
    pub fn parse_cpu_stats_line(&self, line: &str) -> (result: Result<ProcStatStatus, String>)
        ensures
            match result {
                Ok(status) => cpu_line(line@) == Some(status),
                Err(message) => cpu_line(line@) is None && message@
                    == "/proc/stat is not in a valid format."@,
            },
    {
        let chars = chars_of(line);
        parse_cpu_line(&chars)
    }

    /// Parses the text of `/proc/stat`, of which only the first line is
    /// read.
    pub fn parse_contents(&self, contents: &str) -> (result: Result<ProcStatStatus, String>)
        ensures
            match result {
                Ok(status) => cpu_line(first_line(contents@)) == Some(status),
                Err(message) => cpu_line(first_line(contents@)) is None && message@
                    == "/proc/stat is not in a valid format."@,
            },
    {
        let chars = chars_of(contents);
        let all = lines(&chars);
        if all.len() > 0 {
            assert(views(all@)[0] == all@[0]@);
            parse_cpu_line(&all[0])
        } else {
            let empty: Vec<char> = Vec::new();
            assert(empty@ =~= Seq::<char>::empty());
            parse_cpu_line(&empty)
        }
    }
}

/// Parses the aggregate CPU line from its characters.
fn parse_cpu_line(chars: &Vec<char>) -> (result: Result<ProcStatStatus, String>)
    ensures
        match result {
            Ok(status) => cpu_line(chars@) == Some(status),
            Err(message) => cpu_line(chars@) is None && message@
                == "/proc/stat is not in a valid format."@,
        },
{
    let prefix = chars_of("cpu ");
    proof {
        reveal_strlit("cpu ");
        assert(prefix@ =~= cpu_line_prefix());
    }
    if !starts_with(chars, &prefix) {
        return Err("/proc/stat is not in a valid format.".to_string());
    }
    let rest = slice_of(chars, 4, chars.len());
    let columns = split_whitespace(&rest);
    let values = parse_counters(&columns);
    if values.len() <= PROC_STAT_IOWAIT_INDEX {
        return Err("/proc/stat is not in a valid format.".to_string());
    }
    let total = saturating_sum(&values);
    let idle = values[PROC_STAT_IDLE_INDEX];
    let iowait = values[PROC_STAT_IOWAIT_INDEX];
    Ok(ProcStatStatus::new(idle, iowait, total))
}

/// The counters that the columns of a row hold.
pub fn parse_counters(columns: &Vec<Vec<char>>) -> (values: Vec<u64>)
    ensures
        values@ == counters_of(views(columns@)),
{
    let mut values: Vec<u64> = Vec::new();
    let mut i: usize = 0;
    while i < columns.len()
        invariant
            i <= columns@.len(),
            values@ == counters_of(views(columns@)).take(i as int),
        decreases columns@.len() - i,
    {
        let value = parse_counter(&columns[i]);
        values.push(value);
        assert(values@ =~= counters_of(views(columns@)).take(i + 1));
        i = i + 1;
    }
    assert(values@ =~= counters_of(views(columns@)));
    values
}

} // verus!
