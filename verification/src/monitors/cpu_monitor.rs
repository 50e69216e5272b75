//! CPU usage, sampled as exact tick counts.
//!
//! The usage between two polls is the share of ticks that were not idle,
//! `1 - idle_delta / total_delta`. A sample holds the two tick counts that
//! this ratio is made of, so that nothing is lost to rounding; the panel
//! turns each sample into a percentage and averages them.

use crate::configuration::app_configuration::AppConfiguration;
use crate::counters::{clamped_delta, delta, saturated};
use crate::sensors::proc_stat_reader::ProcStatStatus;
use crate::sensors::sensor_traits::SensorReader;
use crate::window::{push_bounded, push_sample};
use std::collections::VecDeque;
use vstd::prelude::*;

verus! {

/// The ticks that passed between two polls. The usage over that time is
/// `1 - idle_delta / total_delta`, and has no value if no tick passed.
#[derive(Default, Clone, Copy, Debug, PartialEq, Eq, Structural)]
pub struct CpuSample {
    /// Ticks spent idle or waiting for I/O.
    pub idle_delta: u64,
    /// Ticks spent in any state.
    pub total_delta: u64,
}

impl CpuSample {
    /// A sample with the given tick counts.
    pub fn new(idle_delta: u64, total_delta: u64) -> (sample: Self)
        ensures
            sample == (CpuSample { idle_delta, total_delta }),
    {
        Self { idle_delta, total_delta }
    }
}

/// The ticks that a reading shows as not spent working: idle ticks and
/// ticks spent waiting for I/O, stopping at `u64::MAX`.
pub open spec fn total_idle(reading: ProcStatStatus) -> u64 {
    saturated((reading.idle + reading.iowait) as nat)
}

/// The state of a CPU monitor, as a mathematical value.
pub struct CpuMonitorState {
    /// The idle ticks at the latest successful poll; zero before the first.
    pub previous_idle: u64,
    /// All ticks at the latest successful poll; zero before the first.
    pub previous_total: u64,
    /// The samples in the window, oldest first.
    pub samples: Seq<CpuSample>,
    /// The number of samples that the window holds at most.
    pub capacity: nat,
}

/// The sample that a reading yields after the given previous counters: how
/// far the idle ticks and all ticks have advanced, and zero for a counter
/// that has gone backwards.
pub open spec fn cpu_sample(previous_idle: u64, previous_total: u64, reading: ProcStatStatus)
    -> CpuSample {
    CpuSample {
        idle_delta: clamped_delta(total_idle(reading), previous_idle),
        total_delta: clamped_delta(reading.total, previous_total),
    }
}

/// The state that follows `state` when `reading` is recorded.
pub open spec fn cpu_step(state: CpuMonitorState, reading: ProcStatStatus) -> CpuMonitorState {
    CpuMonitorState {
        previous_idle: total_idle(reading),
        previous_total: reading.total,
        samples: push_bounded(
            state.samples,
            cpu_sample(state.previous_idle, state.previous_total, reading),
            state.capacity,
        ),
        capacity: state.capacity,
    }
}

/// The state of a monitor that has seen nothing yet.
pub open spec fn cpu_fresh(capacity: nat) -> CpuMonitorState {
    CpuMonitorState { previous_idle: 0, previous_total: 0, samples: Seq::empty(), capacity }
}

/// The first poll of a fresh monitor samples the ticks since boot, so its
/// usage is `1 - (idle + iowait) / total` of the first reading. A second
/// poll, with a reading whose counters have not gone backwards, samples
/// exactly the ticks between the two readings, so that the usage it adds is
/// `1 - ((idle2 + iowait2) - (idle1 + iowait1)) / (total2 - total1)`. A
/// window of one sample then holds the second sample alone, and a larger one
/// holds both.
pub proof fn law_cpu_first_polls(first: ProcStatStatus, second: ProcStatStatus, capacity: nat)
    requires
        capacity >= 1,
        first.idle + first.iowait <= u64::MAX,
        second.idle + second.iowait <= u64::MAX,
        second.total > first.total,
        second.idle + second.iowait >= first.idle + first.iowait,
    ensures
        cpu_step(cpu_fresh(capacity), first).samples == seq![
            CpuSample { idle_delta: (first.idle + first.iowait) as u64, total_delta: first.total },
        ],
        cpu_step(cpu_step(cpu_fresh(capacity), first), second).samples == if capacity == 1 {
            seq![
                CpuSample {
                    idle_delta: ((second.idle + second.iowait) - (first.idle
                        + first.iowait)) as u64,
                    total_delta: (second.total - first.total) as u64,
                },
            ]
        } else {
            seq![
                CpuSample {
                    idle_delta: (first.idle + first.iowait) as u64,
                    total_delta: first.total,
                },
                CpuSample {
                    idle_delta: ((second.idle + second.iowait) - (first.idle
                        + first.iowait)) as u64,
                    total_delta: (second.total - first.total) as u64,
                },
            ]
        },
{
    let one = cpu_step(cpu_fresh(capacity), first);
    let first_sample = CpuSample {
        idle_delta: (first.idle + first.iowait) as u64,
        total_delta: first.total,
    };
    let second_sample = CpuSample {
        idle_delta: ((second.idle + second.iowait) - (first.idle + first.iowait)) as u64,
        total_delta: (second.total - first.total) as u64,
    };
    assert(one.samples =~= seq![first_sample]);
    let two = cpu_step(one, second);
    if capacity == 1 {
        assert(two.samples =~= seq![second_sample]);
    } else {
        assert(two.samples =~= seq![first_sample, second_sample]);
    }
}

/// Polls a CPU sensor and keeps the ticks between polls in a bounded
/// window of recent samples.
pub struct CpuMonitor<S: SensorReader<Output = ProcStatStatus>> {
    sensor_reader: S,
    previous_idle: u64,
    previous_total: u64,
    sample_buffer: VecDeque<CpuSample>,
    max_samples: usize,
}

impl<S: SensorReader<Output = ProcStatStatus>> View for CpuMonitor<S> {
    type V = CpuMonitorState;

    closed spec fn view(&self) -> CpuMonitorState {
        CpuMonitorState {
            previous_idle: self.previous_idle,
            previous_total: self.previous_total,
            samples: self.sample_buffer@,
            capacity: self.max_samples as nat,
        }
    }
}

impl<S: SensorReader<Output = ProcStatStatus>> CpuMonitor<S> {
    /// The sensor that the monitor polls.
    pub closed spec fn reader(&self) -> S {
        self.sensor_reader
    }

    /// The window has room for at least one sample and never holds more
    /// than its capacity.
    pub open spec fn wf(&self) -> bool {
        &&& self@.capacity >= 1
        &&& self@.samples.len() <= self@.capacity
    }

    /// A monitor that has seen nothing yet, with an empty window of the
    /// capacity that the CPU settings ask for.
    pub fn new(sensor_reader: S, configuration: &AppConfiguration) -> (monitor: Self)
        requires
            configuration.cpu.max_samples >= 1,
        ensures
            monitor.wf(),
            monitor.reader() == sensor_reader,
            monitor@ == cpu_fresh(configuration.cpu.max_samples as nat),
    {
        Self {
            sensor_reader,
            previous_idle: 0,
            previous_total: 0,
            sample_buffer: VecDeque::new(),
            max_samples: configuration.cpu.max_samples,
        }
    }

    /// Takes in one reading and returns the samples in the window, oldest
    /// first.
    pub fn record(&mut self, reading: ProcStatStatus) -> (samples: Vec<CpuSample>)
        requires
            old(self).wf(),
        ensures
            final(self).wf(),
            final(self).reader() == old(self).reader(),
            final(self)@ == cpu_step(old(self)@, reading),
            samples@ == final(self)@.samples,
    {
        let total_idle = reading.idle.saturating_add(reading.iowait);
        let sample = CpuSample::new(
            delta(total_idle, self.previous_idle),
            delta(reading.total, self.previous_total),
        );
        push_sample(&mut self.sample_buffer, sample, self.max_samples);
        self.previous_idle = total_idle;
        self.previous_total = reading.total;
        let mut samples: Vec<CpuSample> = Vec::new();
        let mut i: usize = 0;
        while i < self.sample_buffer.len()
            invariant
                i <= self.sample_buffer@.len(),
                samples@ == self.sample_buffer@.take(i as int),
            decreases self.sample_buffer@.len() - i,
        {
            samples.push(self.sample_buffer[i]);
            assert(samples@ =~= self.sample_buffer@.take(i + 1));
            i = i + 1;
        }
        assert(samples@ =~= self.sample_buffer@);
        samples
    }

    /// What taking in the outcome of one read does to a monitor: a reading
    /// is recorded and the window returned; an error is handed on as it is
    /// and leaves the monitor as it was.
    pub open spec fn observed(
        before: Self,
        after: Self,
        outcome: Result<ProcStatStatus, String>,
        result: Result<Vec<CpuSample>, String>,
    ) -> bool {
        &&& after.wf()
        &&& after.reader() == before.reader()
        &&& match outcome {
            Ok(reading) => {
                &&& after@ == cpu_step(before@, reading)
                &&& result matches Ok(samples)
                &&& samples@ == after@.samples
            },
            Err(error) => {
                &&& after@ == before@
                &&& result == Err::<Vec<CpuSample>, String>(error)
            },
        }
    }

    /// Takes in the outcome of one read of the sensor. A reading is
    /// recorded; an error is handed on as it is and leaves the monitor as it
    /// was.
    pub fn observe(&mut self, outcome: Result<ProcStatStatus, String>) -> (result: Result<
        Vec<CpuSample>,
        String,
    >)
        requires
            old(self).wf(),
        ensures
            Self::observed(*old(self), *final(self), outcome, result),
    {
        match outcome {
            Ok(reading) => Ok(self.record(reading)),
            Err(error) => Err(error),
        }
    }

    /// What one poll does to a monitor: the sensor is read once, and what
    /// it yields is taken in. The result of a poll is therefore the
    /// sensor's own error, or the window after the sensor's own reading.
    pub open spec fn polled(before: Self, after: Self, result: Result<Vec<CpuSample>, String>)
        -> bool {
        exists|outcome: Result<ProcStatStatus, String>|
            {
                &&& #[trigger] call_ensures(S::read, (&before.reader(),), outcome)
                &&& Self::observed(before, after, outcome, result)
            }
    }

    /// Reads the sensor once and takes in the outcome.
    pub fn poll(&mut self) -> (result: Result<Vec<CpuSample>, String>)
        requires
            old(self).wf(),
        ensures
            Self::polled(*old(self), *final(self), result),
    {
        let outcome = self.sensor_reader.read();
        let ghost seen = outcome;
        let result = self.observe(outcome);
        assert(call_ensures(S::read, (&old(self).reader(),), seen));
        result
    }
}

} // verus!
