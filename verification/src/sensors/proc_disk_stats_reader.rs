//! The per-device table of `/proc/diskstats`.

use crate::counters::{counter_of, parse_counter};
use crate::text::{
    chars_of, fields, lines, lines_of, split_whitespace, string_of, trim, trimmed, views,
};
use vstd::prelude::*;

verus! {

/// The column that names the device.
pub const DISK_NAME_INDEX: usize = 2;

/// The column that counts completed reads.
pub const READS_COMPLETED_INDEX: usize = 3;

/// The column that counts completed writes.
pub const WRITES_COMPLETED_INDEX: usize = 7;

/// The number of columns of a row.
pub const DISK_STATS_COLUMNS: usize = 20;

/// The counters of one block device, as a mathematical value.
pub struct DiskDevice {
    /// The device's name.
    pub device_name: Seq<char>,
    /// Reads completed since boot.
    pub reads_completed: u64,
    /// Writes completed since boot.
    pub writes_completed: u64,
}

/// The counters of one block device.
#[derive(Clone, Debug, Default)]
pub struct ProcDiskStatsStatus {
    /// The device's name.
    pub device_name: String,
    /// Reads completed since boot.
    pub reads_completed: u64,
    /// Writes completed since boot.
    pub writes_completed: u64,
}

impl View for ProcDiskStatsStatus {
    type V = DiskDevice;

    open spec fn view(&self) -> DiskDevice {
        DiskDevice {
            device_name: self.device_name@,
            reads_completed: self.reads_completed,
            writes_completed: self.writes_completed,
        }
    }
}

impl ProcDiskStatsStatus {
    /// The counters of the device `device_name`.
    pub fn new(device_name: String, reads_completed: u64, writes_completed: u64) -> (status: Self)
        ensures
            status.device_name == device_name,
            status.reads_completed == reads_completed,
            status.writes_completed == writes_completed,
    {
        Self { device_name, reads_completed, writes_completed }
    }
}

/// One reading of the counters of all block devices.
#[derive(Debug, Clone)]
pub struct ProcDiskStats {
    /// One entry per device, in the order of the table.
    pub device_statuses: Vec<ProcDiskStatsStatus>,
}

impl View for ProcDiskStats {
    type V = Seq<DiskDevice>;

    open spec fn view(&self) -> Seq<DiskDevice> {
        Seq::new(self.device_statuses@.len(), |i: int| self.device_statuses@[i]@)
    }
}

impl ProcDiskStats {
    /// A reading of the given devices.
    pub fn new(device_statuses: Vec<ProcDiskStatsStatus>) -> (stats: Self)
        ensures
            stats.device_statuses == device_statuses,
    {
        Self { device_statuses }
    }
}

/// The device that a row of the table denotes. The row has at least twenty
/// columns; the third is the name, the fourth counts completed reads and the
/// eighth completed writes. A counter that is no decimal number counts as
/// zero. Any other row denotes nothing.
pub open spec fn disk_stats_line(line: Seq<char>) -> Option<DiskDevice> {
    let values = fields(line);
    if values.len() >= DISK_STATS_COLUMNS {
        Some(
            DiskDevice {
                device_name: values[DISK_NAME_INDEX as int],
                reads_completed: counter_of(values[READS_COMPLETED_INDEX as int]),
                writes_completed: counter_of(values[WRITES_COMPLETED_INDEX as int]),
            },
        )
    } else {
        None
    }
}

/// Whether a line holds nothing but white space.
pub open spec fn is_blank(line: Seq<char>) -> bool {
    trimmed(line).len() == 0
}

/// The devices that the given lines denote, in order; blank lines are
/// passed over. If any other line denotes nothing, the whole table is in
/// error.
pub open spec fn disk_stats(lines: Seq<Seq<char>>) -> Option<Seq<DiskDevice>>
    decreases lines.len(),
{
    if lines.len() == 0 {
        Some(Seq::empty())
    } else {
        match disk_stats(lines.drop_last()) {
            None => None,
            Some(devices) => if is_blank(lines.last()) {
                Some(devices)
            } else {
                match disk_stats_line(lines.last()) {
                    None => None,
                    Some(device) => Some(devices.push(device)),
                }
            },
        }
    }
}

/// Once a prefix of the lines is in error, so is the whole table.
pub proof fn lemma_disk_stats_error_stays(lines: Seq<Seq<char>>, n: int)
    requires
        0 <= n <= lines.len(),
        disk_stats(lines.take(n)) is None,
    ensures
        disk_stats(lines) is None,
    decreases lines.len() - n,
{
    if n < lines.len() {
        let shorter = lines.drop_last();
        assert(shorter.take(n) =~= lines.take(n));
        lemma_disk_stats_error_stays(shorter, n);
    } else {
        assert(lines.take(n) =~= lines);
    }
}

/// The parser of `/proc/diskstats`.
#[derive(Default, Debug)]
pub struct ProcDiskStatsReader;

impl ProcDiskStatsReader {
    /// Parses one row of the table. Fails exactly on the rows that denote
    /// nothing.
    pub fn parse_disk_stats_line(&self, line: &str) -> (result: Result<ProcDiskStatsStatus, String>)
        ensures
            match result {
                Ok(status) => disk_stats_line(line@) == Some(status@),
                Err(message) => disk_stats_line(line@) is None && message@
                    == "Invalid file format /proc/diskstats"@,
            },
    {
        let chars = chars_of(line);
        parse_disk_line(&chars)
    }

    /// Parses the text of `/proc/diskstats`. Fails exactly on the texts with
    /// a line that is not blank and denotes nothing.
    pub fn parse_contents(&self, contents: &str) -> (result: Result<ProcDiskStats, String>)
        ensures
            match result {
                Ok(stats) => disk_stats(lines_of(contents@)) == Some(stats@),
                Err(message) => disk_stats(lines_of(contents@)) is None && message@
                    == "Invalid file format /proc/diskstats"@,
            },
    {
        let chars = chars_of(contents);
        let all = lines(&chars);
        let mut statuses: Vec<ProcDiskStatsStatus> = Vec::new();
        let ghost shown = Seq::<DiskDevice>::empty();
        let mut i: usize = 0;
        while i < all.len()
            invariant
                i <= all@.len(),
                views(all@) == lines_of(contents@),
                shown.len() == statuses@.len(),
                forall|j: int| 0 <= j < shown.len() ==> shown[j] == statuses@[j]@,
                disk_stats(views(all@).take(i as int)) == Some(shown),
            decreases all@.len() - i,
        {
            let line = &all[i];
            proof {
                let next = views(all@).take(i + 1);
                assert(next.drop_last() =~= views(all@).take(i as int));
                assert(next.last() == line@);
            }
            let bare = trim(line);
            if bare.len() > 0 {
                match parse_disk_line(line) {
                    Err(message) => {
                        proof {
                            lemma_disk_stats_error_stays(views(all@), i + 1);
                        }
                        return Err(message);
                    },
                    Ok(status) => {
                        proof {
                            shown = shown.push(status@);
                        }
                        statuses.push(status);
                    },
                }
            }
            i = i + 1;
        }
        assert(views(all@).take(all@.len() as int) =~= views(all@));
        let stats = ProcDiskStats::new(statuses);
        assert(stats@ =~= shown);
        Ok(stats)
    }
}

/// Parses one row of the table from its characters.
fn parse_disk_line(chars: &Vec<char>) -> (result: Result<ProcDiskStatsStatus, String>)
    ensures
        match result {
            Ok(status) => disk_stats_line(chars@) == Some(status@),
            Err(message) => disk_stats_line(chars@) is None && message@
                == "Invalid file format /proc/diskstats"@,
        },
{
    let values = split_whitespace(chars);
    if values.len() < DISK_STATS_COLUMNS {
        return Err("Invalid file format /proc/diskstats".to_string());
    }
    assert(views(values@)[DISK_NAME_INDEX as int] == values@[DISK_NAME_INDEX as int]@);
    assert(views(values@)[READS_COMPLETED_INDEX as int] == values@[READS_COMPLETED_INDEX as int]@);
    assert(views(values@)[WRITES_COMPLETED_INDEX as int]
        == values@[WRITES_COMPLETED_INDEX as int]@);
    let device_name = string_of(&values[DISK_NAME_INDEX]);
    let total_reads = parse_counter(&values[READS_COMPLETED_INDEX]);
    let total_writes = parse_counter(&values[WRITES_COMPLETED_INDEX]);
    Ok(ProcDiskStatsStatus::new(device_name, total_reads, total_writes))
}

} // verus!
