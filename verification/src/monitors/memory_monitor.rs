//! Memory in use, averaged over recent polls.

use crate::configuration::app_configuration::AppConfiguration;
use crate::counters::{clamped_delta, delta};
use crate::sensors::proc_meminfo_reader::ProcMemInfoStatus;
use crate::sensors::sensor_traits::SensorReader;
use crate::window::{
    lemma_window_is_most_recent, mean, mean_of, most_recent, push_bounded, push_sample,
    window_after,
};
use std::collections::VecDeque;
use vstd::prelude::*;

verus! {

/// What the memory monitor reports, in kibibytes.
#[derive(Default, Clone, Copy, Debug, PartialEq, Eq, Structural)]
pub struct MemoryStats {
    /// All usable memory, as of the latest reading.
    pub total_kib: u64,
    /// Memory in use, averaged over the window.
    pub used_kib: u64,
}

impl MemoryStats {
    /// A report with the given figures.
    pub fn new(total_kib: u64, used_kib: u64) -> (stats: Self)
        ensures
            stats == (MemoryStats { total_kib, used_kib }),
    {
        Self { total_kib, used_kib }
    }
}

/// The memory in use that a reading shows: all usable memory less what is
/// available, and zero if more is available than there is.
pub open spec fn used_kib(reading: ProcMemInfoStatus) -> u64 {
    clamped_delta(reading.total_kib, reading.available_kib)
}

/// The memory in use that each of a sequence of readings shows.
pub open spec fn used_values(readings: Seq<ProcMemInfoStatus>) -> Seq<u64> {
    readings.map_values(|reading: ProcMemInfoStatus| used_kib(reading))
}

/// For every sequence of readings polled by a fresh monitor, the window
/// holds the memory in use of the most recent readings, as many as the
/// window's capacity or all of them if there are fewer, and the reported
/// average is their arithmetic mean.
pub proof fn law_memory_average(readings: Seq<ProcMemInfoStatus>, capacity: nat)
    requires
        capacity >= 1,
    ensures
        window_after(used_values(readings), capacity) == most_recent(
            used_values(readings),
            capacity,
        ),
        mean(window_after(used_values(readings), capacity)) == mean(
            most_recent(used_values(readings), capacity),
        ),
        forall|i: int|
            0 <= i < readings.len() ==> used_values(readings)[i] == if readings[i].available_kib
                > readings[i].total_kib {
                0
            } else {
                readings[i].total_kib - readings[i].available_kib
            },
{
    lemma_window_is_most_recent(used_values(readings), capacity);
}

/// Polls a memory sensor and averages the memory in use over a bounded
/// window of recent polls.
pub struct MemoryMonitor<S: SensorReader<Output = ProcMemInfoStatus>> {
    sensor_reader: S,
    sample_buffer: VecDeque<u64>,
    max_samples: usize,
}

impl<S: SensorReader<Output = ProcMemInfoStatus>> MemoryMonitor<S> {
    /// The samples in the window, oldest first.
    pub closed spec fn samples(&self) -> Seq<u64> {
        self.sample_buffer@
    }

    /// The number of samples that the window holds at most.
    pub closed spec fn capacity(&self) -> nat {
        self.max_samples as nat
    }

    /// The sensor that the monitor polls.
    pub closed spec fn reader(&self) -> S {
        self.sensor_reader
    }

    /// The window holds at least one sample when full and never more than
    /// its capacity.
    pub open spec fn wf(&self) -> bool {
        &&& self.capacity() >= 1
        &&& self.samples().len() <= self.capacity()
    }

    /// A monitor with an empty window of the capacity that the memory
    /// settings ask for.
    pub fn new(sensor_reader: S, configuration: &AppConfiguration) -> (monitor: Self)
        requires
            configuration.memory.max_samples >= 1,
        ensures
            monitor.wf(),
            monitor.samples() == Seq::<u64>::empty(),
            monitor.capacity() == configuration.memory.max_samples,
            monitor.reader() == sensor_reader,
    {
        Self {
            sensor_reader,
            sample_buffer: VecDeque::new(),
            max_samples: configuration.memory.max_samples,
        }
    }

    /// Takes in one reading: its memory in use enters the window, the oldest
    /// sample leaves if the window was full, and the report holds the
    /// reading's total and the mean of the window.
    pub fn record(&mut self, reading: ProcMemInfoStatus) -> (stats: MemoryStats)
        requires
            old(self).wf(),
        ensures
            final(self).wf(),
            final(self).capacity() == old(self).capacity(),
            final(self).reader() == old(self).reader(),
            final(self).samples() == push_bounded(
                old(self).samples(),
                used_kib(reading),
                old(self).capacity(),
            ),
            stats.total_kib == reading.total_kib,
            stats.used_kib == mean(final(self).samples()),
    {
        let current_used = delta(reading.total_kib, reading.available_kib);
        push_sample(&mut self.sample_buffer, current_used, self.max_samples);
        let average_used = mean_of(&self.sample_buffer);
        MemoryStats::new(reading.total_kib, average_used)
    }

    /// What taking in the outcome of one read does to a monitor: a reading
    /// is recorded, so that its memory in use enters the window and the
    /// report holds its total and the mean of the window; an error is handed
    /// on as it is and leaves the monitor as it was.
    pub open spec fn observed(
        before: Self,
        after: Self,
        outcome: Result<ProcMemInfoStatus, String>,
        result: Result<MemoryStats, String>,
    ) -> bool {
        &&& after.wf()
        &&& after.capacity() == before.capacity()
        &&& after.reader() == before.reader()
        &&& match outcome {
            Ok(reading) => {
                &&& after.samples() == push_bounded(
                    before.samples(),
                    used_kib(reading),
                    before.capacity(),
                )
                &&& result matches Ok(stats)
                &&& stats.total_kib == reading.total_kib
                &&& stats.used_kib == mean(after.samples())
            },
            Err(error) => {
                &&& after.samples() == before.samples()
                &&& result == Err::<MemoryStats, String>(error)
            },
        }
    }

    /// Takes in the outcome of one read of the sensor. A reading is
    /// recorded; an error is handed on as it is and leaves the monitor as it
    /// was.
    pub fn observe(&mut self, outcome: Result<ProcMemInfoStatus, String>) -> (result: Result<
        MemoryStats,
        String,
    >)
        requires
            old(self).wf(),
        ensures
            Self::observed(*old(self), *final(self), outcome, result),
    {
        match outcome {
            Ok(reading) => Ok(self.record(reading)),
            Err(error) => Err(error),
        }
    }

    /// What one poll does to a monitor: the sensor is read once, and what
    /// it yields is taken in. The result of a poll is therefore the
    /// sensor's own error, or the report for the sensor's own reading.
    pub open spec fn polled(before: Self, after: Self, result: Result<MemoryStats, String>)
        -> bool {
        exists|outcome: Result<ProcMemInfoStatus, String>|
            {
                &&& #[trigger] call_ensures(S::read, (&before.reader(),), outcome)
                &&& Self::observed(before, after, outcome, result)
            }
    }

    /// Reads the sensor once and takes in the outcome.
    pub fn poll(&mut self) -> (result: Result<MemoryStats, String>)
        requires
            old(self).wf(),
        ensures
            Self::polled(*old(self), *final(self), result),
    {
        let outcome = self.sensor_reader.read();
        let ghost seen = outcome;
        let result = self.observe(outcome);
        assert(call_ensures(S::read, (&old(self).reader(),), seen));
        result
    }
}

} // verus!
