//! Network throughput, averaged over recent polls.

use crate::configuration::app_configuration::AppConfiguration;
use crate::counters::{
    baseline, clamped_delta, delta, saturated, saturating_selected_sum, selected_sum,
};
use crate::sensors::network_utilities::NetworkUtilsTrait;
use crate::sensors::proc_net_dev_reader::{NetDevice, ProcNetDevStatus};
use crate::sensors::sensor_traits::SensorReader;
use crate::window::{
    firsts, mean, means_of, push_bounded, push_sample, seconds, sum, PairSample,
};
use std::collections::VecDeque;
use vstd::prelude::*;

verus! {

/// Where the download figure stands in a report.
pub const NETWORK_STAT_RX_INDEX: usize = 0;

/// Where the upload figure stands in a report.
pub const NETWORK_STAT_TX_INDEX: usize = 1;

/// The bytes that moved between two polls.
#[derive(Debug, Clone, Copy, Default, PartialEq, Eq, Structural)]
pub struct NetworkSample {
    /// Bytes received.
    pub rx_bytes: u64,
    /// Bytes transmitted.
    pub tx_bytes: u64,
}

impl NetworkSample {
    /// A sample with the given figures.
    pub fn new(rx_bytes: u64, tx_bytes: u64) -> (sample: Self)
        ensures
            sample == (NetworkSample { rx_bytes, tx_bytes }),
    {
        Self { rx_bytes, tx_bytes }
    }
}

impl PairSample for NetworkSample {
    open spec fn first(&self) -> u64 {
        self.rx_bytes
    }

    open spec fn second(&self) -> u64 {
        self.tx_bytes
    }

    fn get_first(&self) -> (value: u64) {
        self.rx_bytes
    }

    fn get_second(&self) -> (value: u64) {
        self.tx_bytes
    }
}

/// The direction of a network flow.
#[derive(Debug, Clone, Copy, PartialEq, Eq, Structural)]
pub enum NetworkDirection {
    Download,
    Upload,
}

impl Default for NetworkDirection {
    fn default() -> (direction: Self)
        ensures
            direction == NetworkDirection::Download,
    {
        Self::Download
    }
}

/// What the network monitor reports of one direction: the bytes per
/// polling interval, averaged over the window.
#[derive(Debug, Clone, Copy, PartialEq, Eq, Structural)]
pub struct NetworkStats {
    pub bytes: u64,
    pub direction: NetworkDirection,
}

impl Default for NetworkStats {
    fn default() -> (stats: Self)
        ensures
            stats == (NetworkStats { bytes: 0, direction: NetworkDirection::Download }),
    {
        NetworkStats { bytes: 0, direction: NetworkDirection::Download }
    }
}

/// The counters of received bytes of a sequence of interfaces.
pub open spec fn rx_counters(devices: Seq<NetDevice>) -> Seq<u64> {
    devices.map_values(|device: NetDevice| device.rx_bytes)
}

/// The counters of transmitted bytes of a sequence of interfaces.
pub open spec fn tx_counters(devices: Seq<NetDevice>) -> Seq<u64> {
    devices.map_values(|device: NetDevice| device.tx_bytes)
}

/// The bytes received by the physical interfaces among `devices`, stopping
/// at `u64::MAX`.
pub open spec fn rx_total(devices: Seq<NetDevice>, physical: Seq<bool>) -> u64 {
    saturated(selected_sum(rx_counters(devices), physical))
}

/// The bytes transmitted by the physical interfaces among `devices`,
/// stopping at `u64::MAX`.
pub open spec fn tx_total(devices: Seq<NetDevice>, physical: Seq<bool>) -> u64 {
    saturated(selected_sum(tx_counters(devices), physical))
}

/// The rows of the physical interfaces among `devices`, in order.
pub open spec fn physical_rows(devices: Seq<NetDevice>, physical: Seq<bool>) -> Seq<NetDevice>
    decreases devices.len(),
{
    if devices.len() == 0 {
        Seq::empty()
    } else {
        let before = physical_rows(devices.drop_last(), physical.drop_last());
        if physical.last() {
            before.push(devices.last())
        } else {
            before
        }
    }
}

/// The totals are the sums over the rows of the physical interfaces.
pub proof fn lemma_totals_of_physical_rows(devices: Seq<NetDevice>, physical: Seq<bool>)
    requires
        physical.len() == devices.len(),
    ensures
        selected_sum(rx_counters(devices), physical) == sum(
            rx_counters(physical_rows(devices, physical)),
        ),
        selected_sum(tx_counters(devices), physical) == sum(
            tx_counters(physical_rows(devices, physical)),
        ),
    decreases devices.len(),
{
    if devices.len() > 0 {
        let fewer = devices.drop_last();
        lemma_totals_of_physical_rows(fewer, physical.drop_last());
        assert(rx_counters(devices).drop_last() =~= rx_counters(fewer));
        assert(tx_counters(devices).drop_last() =~= tx_counters(fewer));
        if physical.last() {
            let rows = physical_rows(devices, physical);
            assert(rx_counters(rows).drop_last() =~= rx_counters(
                physical_rows(fewer, physical.drop_last()),
            ));
            assert(tx_counters(rows).drop_last() =~= tx_counters(
                physical_rows(fewer, physical.drop_last()),
            ));
        }
    }
}

/// The state of a network monitor, as a mathematical value.
pub struct NetworkMonitorState {
    /// The total of received bytes at the latest successful poll; zero
    /// before the first.
    pub previous_rx_bytes: u64,
    /// The total of transmitted bytes at the latest successful poll; zero
    /// before the first.
    pub previous_tx_bytes: u64,
    /// The samples in the window, oldest first.
    pub samples: Seq<NetworkSample>,
    /// The number of samples that the window holds at most.
    pub capacity: nat,
}

/// The state that follows `state` when a reading of `devices` is recorded,
/// of which those marked in `physical` are physical interfaces. The totals
/// are taken over the physical interfaces only; the sample is how far each
/// total has advanced past its baseline, and zero for a total that has gone
/// backwards. While both previous totals are still zero, as they are before
/// the first poll, the baseline is the current total, so the first sample of
/// a monitor is zero rather than the traffic since boot.
pub open spec fn network_step(
    state: NetworkMonitorState,
    devices: Seq<NetDevice>,
    physical: Seq<bool>,
) -> NetworkMonitorState {
    let rx = rx_total(devices, physical);
    let tx = tx_total(devices, physical);
    NetworkMonitorState {
        previous_rx_bytes: rx,
        previous_tx_bytes: tx,
        samples: push_bounded(
            state.samples,
            NetworkSample {
                rx_bytes: clamped_delta(
                    rx,
                    baseline(state.previous_rx_bytes, state.previous_tx_bytes, rx),
                ),
                tx_bytes: clamped_delta(
                    tx,
                    baseline(state.previous_tx_bytes, state.previous_rx_bytes, tx),
                ),
            },
            state.capacity,
        ),
        capacity: state.capacity,
    }
}

/// Whether `stats` is the report of a monitor in the given state: the mean
/// of each direction over the window, download first.
pub open spec fn network_report(state: NetworkMonitorState, stats: [NetworkStats; 2]) -> bool {
    &&& stats[NETWORK_STAT_RX_INDEX as int].bytes == mean(firsts(state.samples))
    &&& stats[NETWORK_STAT_RX_INDEX as int].direction == NetworkDirection::Download
    &&& stats[NETWORK_STAT_TX_INDEX as int].bytes == mean(seconds(state.samples))
    &&& stats[NETWORK_STAT_TX_INDEX as int].direction == NetworkDirection::Upload
}

/// Device filtering: two readings that hold the same rows for the physical
/// interfaces, and differ only in rows of interfaces that are not physical,
/// take a monitor from one state to the same next state and give the same
/// report. Such rows may be present or not and may hold any counters.
pub proof fn law_virtual_rows_change_nothing(
    state: NetworkMonitorState,
    devices: Seq<NetDevice>,
    physical: Seq<bool>,
    other_devices: Seq<NetDevice>,
    other_physical: Seq<bool>,
    stats: [NetworkStats; 2],
    other_stats: [NetworkStats; 2],
)
    requires
        physical.len() == devices.len(),
        other_physical.len() == other_devices.len(),
        physical_rows(devices, physical) == physical_rows(other_devices, other_physical),
        network_report(network_step(state, devices, physical), stats),
        network_report(network_step(state, other_devices, other_physical), other_stats),
    ensures
        network_step(state, devices, physical) == network_step(
            state,
            other_devices,
            other_physical,
        ),
        stats[0] == other_stats[0],
        stats[1] == other_stats[1],
{
    lemma_totals_of_physical_rows(devices, physical);
    lemma_totals_of_physical_rows(other_devices, other_physical);
}

/// Polls a network sensor and averages the throughput of the physical
/// interfaces over a bounded window of recent polls.
pub struct NetworkMonitor<S: SensorReader<Output = ProcNetDevStatus>, U: NetworkUtilsTrait> {
    sensor_reader: S,
    network_device: U,
    sample_buffer: VecDeque<NetworkSample>,
    previous_rx_bytes: u64,
    previous_tx_bytes: u64,
    max_samples: usize,
}

impl<S: SensorReader<Output = ProcNetDevStatus>, U: NetworkUtilsTrait> View for NetworkMonitor<
    S,
    U,
> {
    type V = NetworkMonitorState;

    closed spec fn view(&self) -> NetworkMonitorState {
        NetworkMonitorState {
            previous_rx_bytes: self.previous_rx_bytes,
            previous_tx_bytes: self.previous_tx_bytes,
            samples: self.sample_buffer@,
            capacity: self.max_samples as nat,
        }
    }
}

impl<S: SensorReader<Output = ProcNetDevStatus>, U: NetworkUtilsTrait> NetworkMonitor<S, U> {
    /// The sensor that the monitor polls.
    pub closed spec fn reader(&self) -> S {
        self.sensor_reader
    }

    /// The classifier that the monitor puts each interface to.
    pub closed spec fn classifier(&self) -> U {
        self.network_device
    }

    /// Whether `answer` is what a classifier has said of an interface, asked
    /// by the interface's name.
    pub open spec fn is_answer(classifier: U, device: NetDevice, answer: bool) -> bool {
        exists|name: &str|
            {
                &&& name@ == device.device_name
                &&& #[trigger] call_ensures(
                    U::is_physical_interface,
                    (&classifier, name),
                    answer,
                )
            }
    }

    /// Whether `physical` holds, for each of `devices` in order, what a
    /// classifier has said of it.
    pub open spec fn answered(classifier: U, devices: Seq<NetDevice>, physical: Seq<bool>)
        -> bool {
        &&& physical.len() == devices.len()
        &&& forall|i: int|
            0 <= i < devices.len() ==> Self::is_answer(
                classifier,
                #[trigger] devices[i],
                physical[i],
            )
    }

    /// The window has room for at least one sample and never holds more
    /// than its capacity.
    pub open spec fn wf(&self) -> bool {
        &&& self@.capacity >= 1
        &&& self@.samples.len() <= self@.capacity
    }

    /// A monitor that has seen nothing yet, with an empty window of the
    /// capacity that the network settings ask for.
    pub fn new(sensor_reader: S, network_device: U, configuration: &AppConfiguration) -> (monitor:
        Self)
        requires
            configuration.network.max_samples >= 1,
        ensures
            monitor.wf(),
            monitor.reader() == sensor_reader,
            monitor.classifier() == network_device,
            monitor@ == (NetworkMonitorState {
                previous_rx_bytes: 0,
                previous_tx_bytes: 0,
                samples: Seq::empty(),
                capacity: configuration.network.max_samples as nat,
            }),
    {
        Self {
            sensor_reader,
            network_device,
            sample_buffer: VecDeque::new(),
            previous_rx_bytes: 0,
            previous_tx_bytes: 0,
            max_samples: configuration.network.max_samples,
        }
    }

    /// Takes in one reading, of whose interfaces those marked in `physical`
    /// are physical ones.
    pub fn record(&mut self, reading: &ProcNetDevStatus, physical: &Vec<bool>) -> (stats: [
        NetworkStats; 2
    ])
        requires
            old(self).wf(),
            physical@.len() == reading@.len(),
        ensures
            final(self).wf(),
            final(self).reader() == old(self).reader(),
            final(self).classifier() == old(self).classifier(),
            final(self)@ == network_step(old(self)@, reading@, physical@),
            network_report(final(self)@, stats),
    {
        let (current_rx_total, current_tx_total) = totals(reading, physical);
        if self.previous_rx_bytes == 0 && self.previous_tx_bytes == 0 {
            self.previous_rx_bytes = current_rx_total;
            self.previous_tx_bytes = current_tx_total;
        }
        let delta_rx = delta(current_rx_total, self.previous_rx_bytes);
        let delta_tx = delta(current_tx_total, self.previous_tx_bytes);
        self.previous_rx_bytes = current_rx_total;
        self.previous_tx_bytes = current_tx_total;
        push_sample(
            &mut self.sample_buffer,
            NetworkSample::new(delta_rx, delta_tx),
            self.max_samples,
        );
        let (average_rx_bytes, average_tx_bytes) = means_of(&self.sample_buffer);
        [
            NetworkStats { bytes: average_rx_bytes, direction: NetworkDirection::Download },
            NetworkStats { bytes: average_tx_bytes, direction: NetworkDirection::Upload },
        ]
    }

    /// What taking in the outcome of one read does to a monitor. Of a
    /// reading, each interface is put to the monitor's classifier by its
    /// name, and the reading is recorded with the classifier's answers; an
    /// error is handed on as it is and leaves the monitor as it was.
    pub open spec fn observed(
        before: Self,
        after: Self,
        outcome: Result<ProcNetDevStatus, String>,
        result: Result<[NetworkStats; 2], String>,
    ) -> bool {
        &&& after.wf()
        &&& after.reader() == before.reader()
        &&& after.classifier() == before.classifier()
        &&& match outcome {
            Ok(reading) => exists|physical: Seq<bool>|
                {
                    &&& #[trigger] Self::answered(before.classifier(), reading@, physical)
                    &&& after@ == network_step(before@, reading@, physical)
                    &&& result matches Ok(stats)
                    &&& network_report(after@, stats)
                },
            Err(error) => {
                &&& after@ == before@
                &&& result == Err::<[NetworkStats; 2], String>(error)
            },
        }
    }

    /// Device filtering, for whole polls: two monitors in equal states with
    /// one classifier, which take in readings that hold the same rows for
    /// the interfaces that the classifier accepts, end in equal states and
    /// give equal reports, whatever rows the readings hold besides.
    pub proof fn law_polls_agree_on_physical_rows(
        before: Self,
        after: Self,
        reading: ProcNetDevStatus,
        stats: [NetworkStats; 2],
        other_before: Self,
        other_after: Self,
        other_reading: ProcNetDevStatus,
        other_stats: [NetworkStats; 2],
    )
        requires
            before@ == other_before@,
            before.classifier() == other_before.classifier(),
            Self::observed(before, after, Ok(reading), Ok(stats)),
            Self::observed(other_before, other_after, Ok(other_reading), Ok(other_stats)),
            forall|physical: Seq<bool>, other_physical: Seq<bool>|
                #[trigger] Self::answered(before.classifier(), reading@, physical)
                    && #[trigger] Self::answered(
                    before.classifier(),
                    other_reading@,
                    other_physical,
                ) ==> physical_rows(reading@, physical) == physical_rows(
                    other_reading@,
                    other_physical,
                ),
        ensures
            after@ == other_after@,
            stats[0] == other_stats[0],
            stats[1] == other_stats[1],
    {
        let physical = choose|physical: Seq<bool>|
            {
                &&& #[trigger] Self::answered(before.classifier(), reading@, physical)
                &&& after@ == network_step(before@, reading@, physical)
                &&& network_report(after@, stats)
            };
        let other_physical = choose|physical: Seq<bool>|
            {
                &&& #[trigger] Self::answered(other_before.classifier(), other_reading@, physical)
                &&& other_after@ == network_step(other_before@, other_reading@, physical)
                &&& network_report(other_after@, other_stats)
            };
        law_virtual_rows_change_nothing(
            before@,
            reading@,
            physical,
            other_reading@,
            other_physical,
            stats,
            other_stats,
        );
    }

    /// Takes in the outcome of one read of the sensor. Of a reading, each
    /// interface is put to the classifier and the reading is recorded with
    /// its answers; an error is handed on as it is and leaves the monitor as
    /// it was.
    pub fn observe(&mut self, outcome: Result<ProcNetDevStatus, String>) -> (result: Result<
        [NetworkStats; 2],
        String,
    >)
        requires
            old(self).wf(),
        ensures
            Self::observed(*old(self), *final(self), outcome, result),
    {
        match outcome {
            Ok(reading) => {
                let ghost classifier = self.classifier();
                let mut physical: Vec<bool> = Vec::new();
                let mut i: usize = 0;
                while i < reading.device_statuses.len()
                    invariant
                        i <= reading.device_statuses@.len(),
                        physical@.len() == i,
                        classifier == self.classifier(),
                        forall|j: int|
                            0 <= j < i ==> Self::is_answer(
                                classifier,
                                #[trigger] reading@[j],
                                physical@[j],
                            ),
                    decreases reading.device_statuses@.len() - i,
                {
                    let name = reading.device_statuses[i].device_name.as_str();
                    let answer = self.network_device.is_physical_interface(name);
                    proof {
                        assert(name@ == reading@[i as int].device_name);
                        assert(call_ensures(
                            U::is_physical_interface,
                            (&classifier, name),
                            answer,
                        ));
                        assert(Self::is_answer(classifier, reading@[i as int], answer));
                    }
                    physical.push(answer);
                    i = i + 1;
                }
                let stats = self.record(&reading, &physical);
                proof {
                    assert(Self::answered(classifier, reading@, physical@));
                    assert(self@ == network_step(old(self)@, reading@, physical@));
                }
                Ok(stats)
            },
            Err(error) => Err(error),
        }
    }

    /// What one poll does to a monitor: the sensor is read once, and what
    /// it yields is taken in. The result of a poll is therefore the
    /// sensor's own error, or the report for the sensor's own reading, with
    /// the interfaces told apart by the monitor's own classifier.
    pub open spec fn polled(before: Self, after: Self, result: Result<[NetworkStats; 2], String>)
        -> bool {
        exists|outcome: Result<ProcNetDevStatus, String>|
            {
                &&& #[trigger] call_ensures(S::read, (&before.reader(),), outcome)
                &&& Self::observed(before, after, outcome, result)
            }
    }

    /// Reads the sensor once and takes in the outcome.
    pub fn poll(&mut self) -> (result: Result<[NetworkStats; 2], String>)
        requires
            old(self).wf(),
        ensures
            Self::polled(*old(self), *final(self), result),
    {
        let outcome = self.sensor_reader.read();
        let ghost seen = outcome;
        let result = self.observe(outcome);
        assert(call_ensures(S::read, (&old(self).reader(),), seen));
        result
    }
}

/// The totals of received and of transmitted bytes over the physical
/// interfaces of a reading.
fn totals(reading: &ProcNetDevStatus, physical: &Vec<bool>) -> (sums: (u64, u64))
    requires
        physical@.len() == reading@.len(),
    ensures
        sums.0 == rx_total(reading@, physical@),
        sums.1 == tx_total(reading@, physical@),
{
    let mut rx: Vec<u64> = Vec::new();
    let mut tx: Vec<u64> = Vec::new();
    let mut i: usize = 0;
    while i < reading.device_statuses.len()
        invariant
            i <= reading.device_statuses@.len(),
            rx@ == rx_counters(reading@).take(i as int),
            tx@ == tx_counters(reading@).take(i as int),
        decreases reading.device_statuses@.len() - i,
    {
        rx.push(reading.device_statuses[i].rx_bytes);
        tx.push(reading.device_statuses[i].tx_bytes);
        assert(rx@ =~= rx_counters(reading@).take(i + 1));
        assert(tx@ =~= tx_counters(reading@).take(i + 1));
        i = i + 1;
    }
    assert(rx@ =~= rx_counters(reading@));
    assert(tx@ =~= tx_counters(reading@));
    (saturating_selected_sum(&rx, physical), saturating_selected_sum(&tx, physical))
}

} // verus!
