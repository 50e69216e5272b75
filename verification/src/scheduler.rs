//! The decisions of the sampling scheduler.
//!
//! A scheduler generation runs one timer per metric family and polls the
//! family's monitor whenever its timer fires, until it is cancelled. The
//! waiting is done by whoever drives the scheduler; what to do about each
//! thing that the wait has yielded is decided here. A change of the
//! configuration never alters a running generation: it is cancelled and a
//! new one is started, which forgets every window and every previous
//! counter.

use crate::configuration::app_configuration::AppConfiguration;
use crate::monitors::cpu_monitor::CpuSample;
use crate::monitors::disk_monitor::{DiskDirection, DiskStats};
use crate::monitors::memory_monitor::MemoryStats;
use crate::monitors::network_monitor::{NetworkDirection, NetworkStats};
use std::time::Duration;
use vstd::prelude::*;

verus! {

/// The four families of metrics.
#[derive(Debug, Clone, Copy, PartialEq, Eq, Structural)]
pub enum MetricFamily {
    Memory,
    Cpu,
    Network,
    Disk,
}

/// What the scheduler's wait has yielded.
#[derive(Debug, Clone, Copy, PartialEq, Eq, Structural)]
pub enum SchedulerEvent {
    /// The timer of a family has fired.
    Tick(MetricFamily),
    /// Cancellation has been signalled.
    Cancelled,
}

/// What the scheduler does about an event.
#[derive(Debug, Clone, Copy, PartialEq, Eq, Structural)]
pub enum SchedulerAction {
    /// Poll the family's monitor and publish the result, then wait again.
    Poll(MetricFamily),
    /// Do nothing and wait again.
    Skip,
    /// Leave the loop; nothing more is published.
    Stop,
}

/// The state of a scheduler, as a mathematical value.
pub struct SchedulerState {
    /// The number of the generation that is running.
    pub generation: u64,
    /// Whether the generation has been cancelled.
    pub stopped: bool,
    /// Whether each family is polled.
    pub memory_enabled: bool,
    pub cpu_enabled: bool,
    pub network_enabled: bool,
    pub disk_enabled: bool,
}

impl SchedulerState {
    /// Whether a family is polled.
    pub open spec fn enabled(self, family: MetricFamily) -> bool {
        match family {
            MetricFamily::Memory => self.memory_enabled,
            MetricFamily::Cpu => self.cpu_enabled,
            MetricFamily::Network => self.network_enabled,
            MetricFamily::Disk => self.disk_enabled,
        }
    }
}

/// The state of a generation that starts with the given configuration: it
/// runs, and polls the families whose indicator is not hidden.
pub open spec fn started(generation: u64, configuration: AppConfiguration) -> SchedulerState {
    SchedulerState {
        generation,
        stopped: false,
        memory_enabled: !configuration.memory.hide_indicator,
        cpu_enabled: !configuration.cpu.hide_indicator,
        network_enabled: !configuration.network.hide_indicator,
        disk_enabled: !configuration.disk.hide_indicator,
    }
}

/// The number of the generation after `generation`.
pub open spec fn next_generation(generation: u64) -> u64 {
    if generation == u64::MAX {
        0
    } else {
        (generation + 1) as u64
    }
}

/// What a scheduler in the given state does about an event that belongs
/// to the generation `generation`. An event of another generation is left
/// over from one that was torn down, and is passed over. A generation that
/// has been cancelled stops at whatever comes next. Otherwise a
/// cancellation stops the loop, and a tick polls its family if the family
/// is enabled.
pub open spec fn decision(state: SchedulerState, generation: u64, event: SchedulerEvent)
    -> SchedulerAction {
    if generation != state.generation {
        SchedulerAction::Skip
    } else if state.stopped {
        SchedulerAction::Stop
    } else {
        match event {
            SchedulerEvent::Cancelled => SchedulerAction::Stop,
            SchedulerEvent::Tick(family) => if state.enabled(family) {
                SchedulerAction::Poll(family)
            } else {
                SchedulerAction::Skip
            },
        }
    }
}

/// The state that follows `state` after an event: a cancellation of the
/// running generation stops it for good, and nothing else changes anything.
pub open spec fn after_event(state: SchedulerState, generation: u64, event: SchedulerEvent)
    -> SchedulerState {
    if generation == state.generation && event == SchedulerEvent::Cancelled {
        SchedulerState { stopped: true, ..state }
    } else {
        state
    }
}

/// Once a generation has been cancelled, it never polls again, whatever
/// events follow.
pub proof fn law_cancelled_generation_is_silent(
    state: SchedulerState,
    events: Seq<(u64, SchedulerEvent)>,
)
    requires
        state.stopped,
    ensures
        forall|i: int|
            0 <= i < events.len() ==> !(#[trigger] decision(
                after_events(state, events.take(i)),
                events[i].0,
                events[i].1,
            ) is Poll),
{
    assert forall|i: int| 0 <= i < events.len() implies !(#[trigger] decision(
        after_events(state, events.take(i)),
        events[i].0,
        events[i].1,
    ) is Poll) by {
        lemma_stopped_stays(state, events.take(i));
    }
}

/// The state after a sequence of events, each with the generation it
/// belongs to.
pub open spec fn after_events(state: SchedulerState, events: Seq<(u64, SchedulerEvent)>)
    -> SchedulerState
    decreases events.len(),
{
    if events.len() == 0 {
        state
    } else {
        after_event(after_events(state, events.drop_last()), events.last().0, events.last().1)
    }
}

/// A stopped generation stays stopped.
pub proof fn lemma_stopped_stays(state: SchedulerState, events: Seq<(u64, SchedulerEvent)>)
    requires
        state.stopped,
    ensures
        after_events(state, events).stopped,
        after_events(state, events).generation == state.generation,
    decreases events.len(),
{
    if events.len() > 0 {
        lemma_stopped_stays(state, events.drop_last());
    }
}

/// The decisions of one scheduler generation.
#[derive(Debug, Clone, Copy)]
pub struct Scheduler {
    generation: u64,
    stopped: bool,
    memory_enabled: bool,
    cpu_enabled: bool,
    network_enabled: bool,
    disk_enabled: bool,
}

impl View for Scheduler {
    type V = SchedulerState;

    closed spec fn view(&self) -> SchedulerState {
        SchedulerState {
            generation: self.generation,
            stopped: self.stopped,
            memory_enabled: self.memory_enabled,
            cpu_enabled: self.cpu_enabled,
            network_enabled: self.network_enabled,
            disk_enabled: self.disk_enabled,
        }
    }
}

impl Scheduler {
    /// The first generation, started with the given configuration.
    pub fn new(configuration: &AppConfiguration) -> (scheduler: Self)
        ensures
            scheduler@ == started(0, *configuration),
    {
        Scheduler {
            generation: 0,
            stopped: false,
            memory_enabled: !configuration.memory.hide_indicator,
            cpu_enabled: !configuration.cpu.hide_indicator,
            network_enabled: !configuration.network.hide_indicator,
            disk_enabled: !configuration.disk.hide_indicator,
        }
    }

    /// The generation that replaces this one when the configuration has
    /// changed. It takes nothing over but the count of generations.
    pub fn restart(&self, configuration: &AppConfiguration) -> (scheduler: Self)
        ensures
            scheduler@ == started(next_generation(self@.generation), *configuration),
    {
        Scheduler {
            generation: self.generation.wrapping_add(1),
            stopped: false,
            memory_enabled: !configuration.memory.hide_indicator,
            cpu_enabled: !configuration.cpu.hide_indicator,
            network_enabled: !configuration.network.hide_indicator,
            disk_enabled: !configuration.disk.hide_indicator,
        }
    }

    /// The number of this generation.
    pub fn generation(&self) -> (generation: u64)
        ensures
            generation == self@.generation,
    {
        self.generation
    }

    /// Whether a family is polled in this generation.
    pub fn is_enabled(&self, family: MetricFamily) -> (enabled: bool)
        ensures
            enabled == self@.enabled(family),
    {
        match family {
            MetricFamily::Memory => self.memory_enabled,
            MetricFamily::Cpu => self.cpu_enabled,
            MetricFamily::Network => self.network_enabled,
            MetricFamily::Disk => self.disk_enabled,
        }
    }

    /// Decides what to do about an event that belongs to the generation
    /// `generation`.
    pub fn on_event(&mut self, generation: u64, event: SchedulerEvent) -> (action: SchedulerAction)
        ensures
            action == decision(old(self)@, generation, event),
            final(self)@ == after_event(old(self)@, generation, event),
    {
        if generation != self.generation {
            return SchedulerAction::Skip;
        }
        if self.stopped {
            return SchedulerAction::Stop;
        }
        match event {
            SchedulerEvent::Cancelled => {
                self.stopped = true;
                SchedulerAction::Stop
            },
            SchedulerEvent::Tick(family) => {
                if self.is_enabled(family) {
                    SchedulerAction::Poll(family)
                } else {
                    SchedulerAction::Skip
                }
            },
        }
    }
}

/// The time between two polls of a family.
pub fn interval_of(configuration: &AppConfiguration, family: MetricFamily) -> (interval: Duration)
    ensures
        interval == match family {
            MetricFamily::Memory => configuration.memory.update_interval,
            MetricFamily::Cpu => configuration.cpu.update_interval,
            MetricFamily::Network => configuration.network.update_interval,
            MetricFamily::Disk => configuration.disk.update_interval,
        },
{
    match family {
        MetricFamily::Memory => configuration.memory.update_interval,
        MetricFamily::Cpu => configuration.cpu.update_interval,
        MetricFamily::Network => configuration.network.update_interval,
        MetricFamily::Disk => configuration.disk.update_interval,
    }
}

/// What is published for a poll of the memory monitor: its report, or a
/// report of zeros if the poll failed.
pub fn memory_result(outcome: Result<MemoryStats, String>) -> (published: MemoryStats)
    ensures
        published == match outcome {
            Ok(stats) => stats,
            Err(_) => MemoryStats { total_kib: 0, used_kib: 0 },
        },
{
    match outcome {
        Ok(stats) => stats,
        Err(_) => MemoryStats::new(0, 0),
    }
}

/// What is published for a poll of the CPU monitor: its window, or no
/// samples if the poll failed.
pub fn cpu_result(outcome: Result<Vec<CpuSample>, String>) -> (published: Vec<CpuSample>)
    ensures
        published@ == match outcome {
            Ok(samples) => samples@,
            Err(_) => Seq::empty(),
        },
{
    match outcome {
        Ok(samples) => samples,
        Err(_) => Vec::new(),
    }
}

/// What is published for a poll of the network monitor: its report, or a
/// report of zeros if the poll failed.
pub fn network_result(outcome: Result<[NetworkStats; 2], String>) -> (published: [NetworkStats; 2])
    ensures
        match outcome {
            Ok(stats) => published == stats,
            Err(_) => {
                &&& published[0] == (NetworkStats {
                    bytes: 0,
                    direction: NetworkDirection::Download,
                })
                &&& published[1] == (NetworkStats { bytes: 0, direction: NetworkDirection::Upload })
            },
        },
{
    match outcome {
        Ok(stats) => stats,
        Err(_) => [
            NetworkStats { bytes: 0, direction: NetworkDirection::Download },
            NetworkStats { bytes: 0, direction: NetworkDirection::Upload },
        ],
    }
}

/// What is published for a poll of the disk monitor: its report, or a
/// report of zeros if the poll failed.
pub fn disk_result(outcome: Result<[DiskStats; 2], String>) -> (published: [DiskStats; 2])
    ensures
        match outcome {
            Ok(stats) => published == stats,
            Err(_) => {
                &&& published[0] == (DiskStats { ops: 0, direction: DiskDirection::Read })
                &&& published[1] == (DiskStats { ops: 0, direction: DiskDirection::Write })
            },
        },
{
    match outcome {
        Ok(stats) => stats,
        Err(_) => [
            DiskStats { ops: 0, direction: DiskDirection::Read },
            DiskStats { ops: 0, direction: DiskDirection::Write },
        ],
    }
}

} // verus!
