//! The `key: value unit` table of `/proc/meminfo`.

use crate::counters::{clamped_delta, counter_of, delta, parse_counter};
use crate::text::{
    chars_of, fields, joined, lines, lines_of, same_chars, split_char, split_on,
    split_whitespace, string_of, trim, trimmed, views,
};
use vstd::prelude::*;

verus! {

/// One reading of the memory gauges, in kibibytes.
#[derive(Clone, Copy, Debug, PartialEq, Eq, Structural)]
pub struct ProcMemInfoStatus {
    /// All usable memory.
    pub total_kib: u64,
    /// Memory that can be handed out without swapping.
    pub available_kib: u64,
}

impl ProcMemInfoStatus {
    /// A reading with the given gauges.
    pub fn new(total_kib: u64, available_kib: u64) -> (status: Self)
        ensures
            status == (ProcMemInfoStatus { total_kib, available_kib }),
    {
        Self { total_kib, available_kib }
    }
}

/// The key and the value that a line of the table denotes. The line holds
/// exactly one colon; before it stands the key, surrounded by any white
/// space, and after it at least one column, the first of which is the value.
/// A value that is no decimal number counts as zero. Any other line denotes
/// nothing.
pub open spec fn meminfo_line(line: Seq<char>) -> Option<(Seq<char>, u64)> {
    let parts = split_on(line, ':');
    if parts.len() == 2 && fields(parts[1]).len() >= 1 {
        Some((trimmed(parts[0]), counter_of(fields(parts[1])[0])))
    } else {
        None
    }
}

/// The message for a line that denotes nothing.
pub open spec fn meminfo_line_error(line: Seq<char>) -> Seq<char> {
    "Invalid line format on line: "@ + line
}

/// The message for a table that holds a line that denotes nothing.
pub open spec fn meminfo_error(line: Seq<char>) -> Seq<char> {
    "Invalid file format: /proc/meminfo "@ + meminfo_line_error(line)
}

/// `status` after a line with the given key and value has been read: the
/// keys `MemTotal` and `MemAvailable` set their gauge, any other key is
/// passed over.
pub open spec fn meminfo_with(status: ProcMemInfoStatus, key: Seq<char>, value: u64)
    -> ProcMemInfoStatus {
    if key == "MemTotal"@ {
        ProcMemInfoStatus { total_kib: value, available_kib: status.available_kib }
    } else if key == "MemAvailable"@ {
        ProcMemInfoStatus { total_kib: status.total_kib, available_kib: value }
    } else {
        status
    }
}

/// The reading that the lines of the table denote: for each gauge the value
/// of the last line that names it, or zero if none does. If a line denotes
/// nothing, the whole table is in error, with the message for the first
/// such line.
pub open spec fn meminfo(lines: Seq<Seq<char>>) -> Result<ProcMemInfoStatus, Seq<char>>
    decreases lines.len(),
{
    if lines.len() == 0 {
        Ok(ProcMemInfoStatus { total_kib: 0, available_kib: 0 })
    } else {
        match meminfo(lines.drop_last()) {
            Err(message) => Err(message),
            Ok(status) => match meminfo_line(lines.last()) {
                None => Err(meminfo_error(lines.last())),
                Some((key, value)) => Ok(meminfo_with(status, key, value)),
            },
        }
    }
}

/// Once a prefix of the lines is in error, so is the whole table, with the
/// same message.
pub proof fn lemma_meminfo_error_stays(lines: Seq<Seq<char>>, n: int)
    requires
        0 <= n <= lines.len(),
        meminfo(lines.take(n)) is Err,
    ensures
        meminfo(lines) == meminfo(lines.take(n)),
    decreases lines.len() - n,
{
    if n < lines.len() {
        let shorter = lines.drop_last();
        assert(shorter.take(n) =~= lines.take(n));
        lemma_meminfo_error_stays(shorter, n);
    } else {
        assert(lines.take(n) =~= lines);
    }
}

/// The parser of `/proc/meminfo`.
pub struct ProcMemInfoSensorReader;

impl ProcMemInfoSensorReader {
    /// Parses one line of the table into its key and value. Fails exactly
    /// on the lines that denote nothing.
    pub fn parse_proc_file_line(&self, line: &str) -> (result: Result<(String, u64), String>)
        ensures
            match result {
                Ok((key, value)) => meminfo_line(line@) == Some((key@, value)),
                Err(message) => meminfo_line(line@) is None && message@ == meminfo_line_error(
                    line@,
                ),
            },
    {
        let chars = chars_of(line);
        match parse_meminfo_line(&chars) {
            Some((key, value)) => Ok((string_of(&key), value)),
            None => Err(joined("Invalid line format on line: ", &chars)),
        }
    }

    /// Parses the text of `/proc/meminfo`. Fails exactly on the texts with a
    /// line that denotes nothing.
    pub fn parse_contents(&self, contents: &str) -> (result: Result<ProcMemInfoStatus, String>)
        ensures
            match result {
                Ok(status) => meminfo(lines_of(contents@)) == Ok::<ProcMemInfoStatus, Seq<char>>(
                    status,
                ),
                Err(message) => meminfo(lines_of(contents@)) == Err::<
                    ProcMemInfoStatus,
                    Seq<char>,
                >(message@),
            },
    {
        let chars = chars_of(contents);
        let all = lines(&chars);
        let total_key = chars_of("MemTotal");
        let available_key = chars_of("MemAvailable");
        let mut total: u64 = 0;
        let mut available: u64 = 0;
        let mut i: usize = 0;
        while i < all.len()
            invariant
                i <= all@.len(),
                views(all@) == lines_of(contents@),
                total_key@ == "MemTotal"@,
                available_key@ == "MemAvailable"@,
                meminfo(views(all@).take(i as int)) == Ok::<ProcMemInfoStatus, Seq<char>>(
                    ProcMemInfoStatus { total_kib: total, available_kib: available },
                ),
            decreases all@.len() - i,
        {
            let line = &all[i];
            proof {
                let next = views(all@).take(i + 1);
                assert(next.drop_last() =~= views(all@).take(i as int));
                assert(next.last() == line@);
            }
            match parse_meminfo_line(line) {
                None => {
                    let inner = joined("Invalid line format on line: ", line);
                    let inner_chars = chars_of(inner.as_str());
                    let message = joined("Invalid file format: /proc/meminfo ", &inner_chars);
                    proof {
                        lemma_meminfo_error_stays(views(all@), i + 1);
                    }
                    return Err(message);
                },
                Some((key, value)) => {
                    if same_chars(&key, &total_key) {
                        total = value;
                    } else if same_chars(&key, &available_key) {
                        available = value;
                    }
                },
            }
            i = i + 1;
        }
        assert(views(all@).take(all@.len() as int) =~= views(all@));
        Ok(ProcMemInfoStatus::new(total, available))
    }
}

/// Parses one line of the table from its characters.
fn parse_meminfo_line(chars: &Vec<char>) -> (result: Option<(Vec<char>, u64)>)
    ensures
        match result {
            Some((key, value)) => meminfo_line(chars@) == Some((key@, value)),
            None => meminfo_line(chars@) is None,
        },
{
    let parts = split_char(chars, ':');
    if parts.len() != 2 {
        return None;
    }
    assert(views(parts@)[0] == parts@[0]@);
    assert(views(parts@)[1] == parts@[1]@);
    let value_parts = split_whitespace(&parts[1]);
    if value_parts.len() < 1 {
        return None;
    }
    assert(views(value_parts@)[0] == value_parts@[0]@);
    let key = trim(&parts[0]);
    let value = parse_counter(&value_parts[0]);
    Some((key, value))
}

/// Memory in use, averaged or not, beside all usable memory, in kibibytes.
#[derive(Default, Clone, Copy, Debug, PartialEq, Eq, Structural)]
pub struct MemoryInfo {
    /// All usable memory.
    pub total_kibibytes: u64,
    /// Memory in use.
    pub used_kibibytes: u64,
}

impl MemoryInfo {
    /// Memory figures with the given values.
    pub fn new(total: u64, used: u64) -> (info: Self)
        ensures
            info == (MemoryInfo { total_kibibytes: total, used_kibibytes: used }),
    {
        Self { total_kibibytes: total, used_kibibytes: used }
    }
}

/// A reader of `/proc/meminfo` that reports memory in use.
pub struct ProcMemInfoReader;

impl ProcMemInfoReader {
    /// A new reader.
    pub fn new() -> Self {
        Self
    }

    /// The memory in use that the text of `/proc/meminfo` denotes: all
    /// usable memory less what is available, and zero if more is available
    /// than there is. Fails exactly on the texts with a line that denotes
    /// nothing.
    pub fn get_memory_info(&self, contents: &str) -> (result: Result<MemoryInfo, String>)
        ensures
            match result {
                Ok(info) => exists|status: ProcMemInfoStatus|
                    {
                        &&& meminfo(lines_of(contents@)) == Ok::<ProcMemInfoStatus, Seq<char>>(
                            status,
                        )
                        &&& info.total_kibibytes == status.total_kib
                        &&& info.used_kibibytes == clamped_delta(
                            status.total_kib,
                            status.available_kib,
                        )
                    },
                Err(message) => meminfo(lines_of(contents@)) == Err::<
                    ProcMemInfoStatus,
                    Seq<char>,
                >(message@),
            },
    {
        match ProcMemInfoSensorReader.parse_contents(contents) {
            Ok(status) => Ok(
                MemoryInfo::new(status.total_kib, delta(status.total_kib, status.available_kib)),
            ),
            Err(message) => Err(message),
        }
    }
}

} // verus!
