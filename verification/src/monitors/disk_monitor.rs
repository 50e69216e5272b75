//! Disk operations, averaged over recent polls.

use crate::configuration::app_configuration::AppConfiguration;
use crate::counters::{
    baseline, clamped_delta, delta, saturated, saturating_selected_sum, selected_sum,
};
use crate::sensors::proc_disk_stats_reader::{DiskDevice, ProcDiskStats};
use crate::sensors::sensor_traits::SensorReader;
use crate::text::{chars_of, contains_char, has_prefix, is_digit, starts_with};
use crate::window::{
    firsts, mean, means_of, push_bounded, push_sample, seconds, sum, PairSample,
};
use std::collections::VecDeque;
use vstd::prelude::*;

verus! {

/// Where the figure for reads stands in a report.
pub const DISK_STAT_READ_INDEX: usize = 0;

/// Where the figure for writes stands in a report.
pub const DISK_STAT_WRITE_INDEX: usize = 1;

/// The operations completed between two polls.
#[derive(Debug, Clone, Copy, Default, PartialEq, Eq, Structural)]
pub struct DiskSample {
    /// Reads completed.
    pub reads: u64,
    /// Writes completed.
    pub writes: u64,
}

impl DiskSample {
    /// A sample with the given figures.
    pub fn new(reads: u64, writes: u64) -> (sample: Self)
        ensures
            sample == (DiskSample { reads, writes }),
    {
        Self { reads, writes }
    }
}

impl PairSample for DiskSample {
    open spec fn first(&self) -> u64 {
        self.reads
    }

    open spec fn second(&self) -> u64 {
        self.writes
    }

    fn get_first(&self) -> (value: u64) {
        self.reads
    }

    fn get_second(&self) -> (value: u64) {
        self.writes
    }
}

/// The direction of a disk operation.
#[derive(Debug, Clone, Copy, PartialEq, Eq, Structural)]
pub enum DiskDirection {
    Read,
    Write,
}

impl Default for DiskDirection {
    fn default() -> (direction: Self)
        ensures
            direction == DiskDirection::Read,
    {
        Self::Read
    }
}

/// What the disk monitor reports of one direction: the operations per
/// polling interval, averaged over the window.
#[derive(Debug, Clone, Copy, PartialEq, Eq, Structural)]
pub struct DiskStats {
    pub ops: u64,
    pub direction: DiskDirection,
}

impl Default for DiskStats {
    fn default() -> (stats: Self)
        ensures
            stats == (DiskStats { ops: 0, direction: DiskDirection::Read }),
    {
        DiskStats { ops: 0, direction: DiskDirection::Read }
    }
}

/// Whether a block device of the given name is a whole disk: an NVMe
/// namespace, whose name begins with `nvme` and holds no `p`, or a disk
/// whose name begins with `sd` or `hd` and does not end in a decimal digit.
/// Partitions, loop devices and device-mapper volumes are not.
pub open spec fn logical_disk(name: Seq<char>) -> bool {
    ||| has_prefix(name, seq!['n', 'v', 'm', 'e']) && !name.contains('p')
    ||| has_prefix(name, seq!['s', 'd']) && !is_digit(name.last())
    ||| has_prefix(name, seq!['h', 'd']) && !is_digit(name.last())
}

/// Whether a block device of the given name is a whole disk.
pub fn is_logical_disk(name: &str) -> (logical: bool)
    ensures
        logical == logical_disk(name@),
{
    let chars = chars_of(name);
    is_logical_disk_name(&chars)
}

/// Whether the characters of a name are those of a whole disk.
fn is_logical_disk_name(chars: &Vec<char>) -> (logical: bool)
    ensures
        logical == logical_disk(chars@),
{
    let nvme = chars_of("nvme");
    let sd = chars_of("sd");
    let hd = chars_of("hd");
    proof {
        reveal_strlit("nvme");
        reveal_strlit("sd");
        reveal_strlit("hd");
        assert(nvme@ =~= seq!['n', 'v', 'm', 'e']);
        assert(sd@ =~= seq!['s', 'd']);
        assert(hd@ =~= seq!['h', 'd']);
    }
    if starts_with(chars, &nvme) && !contains_char(chars, 'p') {
        return true;
    }
    if starts_with(chars, &sd) || starts_with(chars, &hd) {
        let last: char = chars[chars.len() - 1];
        let code: u32 = last as u32;
        return !(0x30 <= code && code <= 0x39);
    }
    false
}

/// The counters of completed reads of a sequence of devices.
pub open spec fn read_counters(devices: Seq<DiskDevice>) -> Seq<u64> {
    devices.map_values(|device: DiskDevice| device.reads_completed)
}

/// The counters of completed writes of a sequence of devices.
pub open spec fn write_counters(devices: Seq<DiskDevice>) -> Seq<u64> {
    devices.map_values(|device: DiskDevice| device.writes_completed)
}

/// For each of a sequence of devices, whether it is a whole disk.
pub open spec fn logical_disks(devices: Seq<DiskDevice>) -> Seq<bool> {
    devices.map_values(|device: DiskDevice| logical_disk(device.device_name))
}

/// The reads completed by the whole disks among `devices`, stopping at
/// `u64::MAX`.
pub open spec fn read_total(devices: Seq<DiskDevice>) -> u64 {
    saturated(selected_sum(read_counters(devices), logical_disks(devices)))
}

/// The writes completed by the whole disks among `devices`, stopping at
/// `u64::MAX`.
pub open spec fn write_total(devices: Seq<DiskDevice>) -> u64 {
    saturated(selected_sum(write_counters(devices), logical_disks(devices)))
}

/// The rows of the whole disks among `devices`, in order.
pub open spec fn logical_rows(devices: Seq<DiskDevice>) -> Seq<DiskDevice>
    decreases devices.len(),
{
    if devices.len() == 0 {
        Seq::empty()
    } else {
        let before = logical_rows(devices.drop_last());
        if logical_disk(devices.last().device_name) {
            before.push(devices.last())
        } else {
            before
        }
    }
}

/// The totals are the sums over the rows of the whole disks.
pub proof fn lemma_totals_of_logical_rows(devices: Seq<DiskDevice>)
    ensures
        selected_sum(read_counters(devices), logical_disks(devices)) == sum(
            read_counters(logical_rows(devices)),
        ),
        selected_sum(write_counters(devices), logical_disks(devices)) == sum(
            write_counters(logical_rows(devices)),
        ),
    decreases devices.len(),
{
    if devices.len() > 0 {
        let fewer = devices.drop_last();
        lemma_totals_of_logical_rows(fewer);
        assert(read_counters(devices).drop_last() =~= read_counters(fewer));
        assert(write_counters(devices).drop_last() =~= write_counters(fewer));
        assert(logical_disks(devices).drop_last() =~= logical_disks(fewer));
        if logical_disk(devices.last().device_name) {
            let rows = logical_rows(devices);
            assert(read_counters(rows).drop_last() =~= read_counters(logical_rows(fewer)));
            assert(write_counters(rows).drop_last() =~= write_counters(logical_rows(fewer)));
        }
    }
}

/// The state of a disk monitor, as a mathematical value.
pub struct DiskMonitorState {
    /// The total of completed reads at the latest successful poll; zero
    /// before the first.
    pub previous_reads: u64,
    /// The total of completed writes at the latest successful poll; zero
    /// before the first.
    pub previous_writes: u64,
    /// The samples in the window, oldest first.
    pub samples: Seq<DiskSample>,
    /// The number of samples that the window holds at most.
    pub capacity: nat,
}

/// The state that follows `state` when a reading of `devices` is recorded.
/// The totals are taken over the whole disks only; the sample is how far
/// each total has advanced past its baseline, and zero for a total that has
/// gone backwards.
pub open spec fn disk_step(state: DiskMonitorState, devices: Seq<DiskDevice>) -> DiskMonitorState {
    let reads = read_total(devices);
    let writes = write_total(devices);
    DiskMonitorState {
        previous_reads: reads,
        previous_writes: writes,
        samples: push_bounded(
            state.samples,
            DiskSample {
                reads: clamped_delta(
                    reads,
                    baseline(state.previous_reads, state.previous_writes, reads),
                ),
                writes: clamped_delta(
                    writes,
                    baseline(state.previous_writes, state.previous_reads, writes),
                ),
            },
            state.capacity,
        ),
        capacity: state.capacity,
    }
}

/// Whether `stats` is the report of a monitor in the given state: the mean
/// of each direction over the window, reads first.
pub open spec fn disk_report(state: DiskMonitorState, stats: [DiskStats; 2]) -> bool {
    &&& stats[DISK_STAT_READ_INDEX as int].ops == mean(firsts(state.samples))
    &&& stats[DISK_STAT_READ_INDEX as int].direction == DiskDirection::Read
    &&& stats[DISK_STAT_WRITE_INDEX as int].ops == mean(seconds(state.samples))
    &&& stats[DISK_STAT_WRITE_INDEX as int].direction == DiskDirection::Write
}

/// Device filtering: two readings that hold the same rows for the whole
/// disks, and differ only in rows of partitions, loop devices and the like,
/// take a monitor from one state to the same next state and give the same
/// report. Such rows may be present or not and may hold any counters.
pub proof fn law_other_rows_change_nothing(
    state: DiskMonitorState,
    devices: Seq<DiskDevice>,
    other_devices: Seq<DiskDevice>,
    stats: [DiskStats; 2],
    other_stats: [DiskStats; 2],
)
    requires
        logical_rows(devices) == logical_rows(other_devices),
        disk_report(disk_step(state, devices), stats),
        disk_report(disk_step(state, other_devices), other_stats),
    ensures
        disk_step(state, devices) == disk_step(state, other_devices),
        stats[0] == other_stats[0],
        stats[1] == other_stats[1],
{
    lemma_totals_of_logical_rows(devices);
    lemma_totals_of_logical_rows(other_devices);
}

/// Device filtering: a device that is no whole disk leaves the totals as
/// they are without it, whatever its counters hold.
pub proof fn law_partitions_contribute_nothing(devices: Seq<DiskDevice>, device: DiskDevice)
    requires
        !logical_disk(device.device_name),
    ensures
        read_total(devices.push(device)) == read_total(devices),
        write_total(devices.push(device)) == write_total(devices),
{
    let more = devices.push(device);
    assert(read_counters(more).drop_last() =~= read_counters(devices));
    assert(write_counters(more).drop_last() =~= write_counters(devices));
    assert(logical_disks(more).drop_last() =~= logical_disks(devices));
}

/// Polls a disk sensor and averages the operations of the whole disks over
/// a bounded window of recent polls.
pub struct DiskMonitor<S: SensorReader<Output = ProcDiskStats>> {
    sensor_reader: S,
    sample_buffer: VecDeque<DiskSample>,
    previous_reads: u64,
    previous_writes: u64,
    max_samples: usize,
}

impl<S: SensorReader<Output = ProcDiskStats>> View for DiskMonitor<S> {
    type V = DiskMonitorState;

    closed spec fn view(&self) -> DiskMonitorState {
        DiskMonitorState {
            previous_reads: self.previous_reads,
            previous_writes: self.previous_writes,
            samples: self.sample_buffer@,
            capacity: self.max_samples as nat,
        }
    }
}

impl<S: SensorReader<Output = ProcDiskStats>> DiskMonitor<S> {
    /// The sensor that the monitor polls.
    pub closed spec fn reader(&self) -> S {
        self.sensor_reader
    }

    /// The window has room for at least one sample and never holds more
    /// than its capacity.
    pub open spec fn wf(&self) -> bool {
        &&& self@.capacity >= 1
        &&& self@.samples.len() <= self@.capacity
    }

    /// A monitor that has seen nothing yet, with an empty window of the
    /// capacity that the disk settings ask for.
    pub fn new(sensor_reader: S, configuration: &AppConfiguration) -> (monitor: Self)
        requires
            configuration.disk.max_samples >= 1,
        ensures
            monitor.wf(),
            monitor.reader() == sensor_reader,
            monitor@ == (DiskMonitorState {
                previous_reads: 0,
                previous_writes: 0,
                samples: Seq::empty(),
                capacity: configuration.disk.max_samples as nat,
            }),
    {
        Self {
            sensor_reader,
            sample_buffer: VecDeque::new(),
            previous_reads: 0,
            previous_writes: 0,
            max_samples: configuration.disk.max_samples,
        }
    }

    /// The number of samples in the window.
    pub fn sample_buffer_len(&self) -> (len: usize)
        ensures
            len == self@.samples.len(),
    {
        self.sample_buffer.len()
    }

    /// Takes in one reading.
    pub fn record(&mut self, reading: &ProcDiskStats) -> (stats: [DiskStats; 2])
        requires
            old(self).wf(),
        ensures
            final(self).wf(),
            final(self).reader() == old(self).reader(),
            final(self)@ == disk_step(old(self)@, reading@),
            disk_report(final(self)@, stats),
    {
        let (current_read_total, current_write_total) = totals(reading);
        if self.previous_reads == 0 && self.previous_writes == 0 {
            self.previous_reads = current_read_total;
            self.previous_writes = current_write_total;
        }
        let delta_reads = delta(current_read_total, self.previous_reads);
        let delta_writes = delta(current_write_total, self.previous_writes);
        self.previous_reads = current_read_total;
        self.previous_writes = current_write_total;
        push_sample(
            &mut self.sample_buffer,
            DiskSample::new(delta_reads, delta_writes),
            self.max_samples,
        );
        let (avg_reads, avg_writes) = means_of(&self.sample_buffer);
        [
            DiskStats { ops: avg_reads, direction: DiskDirection::Read },
            DiskStats { ops: avg_writes, direction: DiskDirection::Write },
        ]
    }

    /// What taking in the outcome of one read does to a monitor: a reading
    /// is recorded and reported on; an error is handed on as it is and
    /// leaves the monitor as it was.
    pub open spec fn observed(
        before: Self,
        after: Self,
        outcome: Result<ProcDiskStats, String>,
        result: Result<[DiskStats; 2], String>,
    ) -> bool {
        &&& after.wf()
        &&& after.reader() == before.reader()
        &&& match outcome {
            Ok(reading) => {
                &&& after@ == disk_step(before@, reading@)
                &&& result matches Ok(stats)
                &&& disk_report(after@, stats)
            },
            Err(error) => {
                &&& after@ == before@
                &&& result == Err::<[DiskStats; 2], String>(error)
            },
        }
    }

    /// Takes in the outcome of one read of the sensor. A reading is
    /// recorded; an error is handed on as it is and leaves the monitor as it
    /// was.
    pub fn observe(&mut self, outcome: Result<ProcDiskStats, String>) -> (result: Result<
        [DiskStats; 2],
        String,
    >)
        requires
            old(self).wf(),
        ensures
            Self::observed(*old(self), *final(self), outcome, result),
    {
        match outcome {
            Ok(reading) => Ok(self.record(&reading)),
            Err(error) => Err(error),
        }
    }

    /// What one poll does to a monitor: the sensor is read once, and what
    /// it yields is taken in. The result of a poll is therefore the
    /// sensor's own error, or the report for the sensor's own reading.
    pub open spec fn polled(before: Self, after: Self, result: Result<[DiskStats; 2], String>)
        -> bool {
        exists|outcome: Result<ProcDiskStats, String>|
            {
                &&& #[trigger] call_ensures(S::read, (&before.reader(),), outcome)
                &&& Self::observed(before, after, outcome, result)
            }
    }

    /// Reads the sensor once and takes in the outcome.
    pub fn poll(&mut self) -> (result: Result<[DiskStats; 2], String>)
        requires
            old(self).wf(),
        ensures
            Self::polled(*old(self), *final(self), result),
    {
        let outcome = self.sensor_reader.read();
        let ghost seen = outcome;
        let result = self.observe(outcome);
        assert(call_ensures(S::read, (&old(self).reader(),), seen));
        result
    }
}

/// The totals of completed reads and of completed writes over the whole
/// disks of a reading.
fn totals(reading: &ProcDiskStats) -> (sums: (u64, u64))
    ensures
        sums.0 == read_total(reading@),
        sums.1 == write_total(reading@),
{
    let mut reads: Vec<u64> = Vec::new();
    let mut writes: Vec<u64> = Vec::new();
    let mut logical: Vec<bool> = Vec::new();
    let mut i: usize = 0;
    while i < reading.device_statuses.len()
        invariant
            i <= reading.device_statuses@.len(),
            reads@ == read_counters(reading@).take(i as int),
            writes@ == write_counters(reading@).take(i as int),
            logical@ == logical_disks(reading@).take(i as int),
        decreases reading.device_statuses@.len() - i,
    {
        let device = &reading.device_statuses[i];
        reads.push(device.reads_completed);
        writes.push(device.writes_completed);
        logical.push(is_logical_disk(device.device_name.as_str()));
        assert(reads@ =~= read_counters(reading@).take(i + 1));
        assert(writes@ =~= write_counters(reading@).take(i + 1));
        assert(logical@ =~= logical_disks(reading@).take(i + 1));
        i = i + 1;
    }
    assert(reads@ =~= read_counters(reading@));
    assert(writes@ =~= write_counters(reading@));
    assert(logical@ =~= logical_disks(reading@));
    (saturating_selected_sum(&reads, &logical), saturating_selected_sum(&writes, &logical))
}

} // verus!
