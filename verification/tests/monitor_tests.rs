use cosmic_vitals::configuration::app_configuration::AppConfiguration;
use cosmic_vitals::monitors::cpu_monitor::{CpuMonitor, CpuSample};
use cosmic_vitals::monitors::disk_monitor::{
    is_logical_disk, DiskDirection, DiskMonitor, DISK_STAT_READ_INDEX, DISK_STAT_WRITE_INDEX,
};
use cosmic_vitals::monitors::memory_monitor::MemoryMonitor;
use cosmic_vitals::monitors::network_monitor::{
    NetworkDirection, NetworkMonitor, NETWORK_STAT_RX_INDEX, NETWORK_STAT_TX_INDEX,
};
use cosmic_vitals::sensors::network_utilities::NetworkUtilsTrait;
use cosmic_vitals::sensors::proc_disk_stats_reader::{ProcDiskStats, ProcDiskStatsStatus};
use cosmic_vitals::sensors::proc_meminfo_reader::ProcMemInfoStatus;
use cosmic_vitals::sensors::proc_net_dev_reader::{ProcNetDevDeviceStatus, ProcNetDevStatus};
use cosmic_vitals::sensors::proc_stat_reader::ProcStatStatus;
use cosmic_vitals::sensors::sensor_traits::SensorReader;
use std::cell::Cell;

// A sensor that yields a fixed series of outcomes, one per read.
struct MockReader<T: Clone> {
    readings: Vec<Result<T, String>>,
    index: Cell<usize>,
}

impl<T: Clone> MockReader<T> {
    fn new(readings: Vec<Result<T, String>>) -> Self {
        Self { readings, index: Cell::new(0) }
    }
}

impl<T: Clone> SensorReader for MockReader<T> {
    type Output = T;

    fn read(&self) -> Result<Self::Output, String> {
        let read_index = self.index.get();
        let reading = self.readings[read_index].clone();
        self.index.set(read_index + 1);
        reading
    }
}

struct MockNetworkUtilities {
    physical_devices: Vec<String>,
}

impl MockNetworkUtilities {
    fn new(physical_devices: Vec<&str>) -> Self {
        Self { physical_devices: physical_devices.into_iter().map(|s| s.to_string()).collect() }
    }
}

impl NetworkUtilsTrait for MockNetworkUtilities {
    fn is_physical_interface(&self, device_name: &str) -> bool {
        self.physical_devices.iter().any(|d| d == device_name)
    }
}

fn cpu_config(max_samples: usize) -> AppConfiguration {
    let mut cfg = AppConfiguration::default();
    cfg.cpu.max_samples = max_samples;
    cfg
}

fn memory_config(max_samples: usize) -> AppConfiguration {
    let mut cfg = AppConfiguration::default();
    cfg.memory.max_samples = max_samples;
    cfg
}

fn network_config(max_samples: usize) -> AppConfiguration {
    let mut cfg = AppConfiguration::default();
    cfg.network.max_samples = max_samples;
    cfg
}

fn disk_config(max_samples: usize) -> AppConfiguration {
    let mut cfg = AppConfiguration::default();
    cfg.disk.max_samples = max_samples;
    cfg
}

// The percentage that the panel shows for a window of CPU samples.
fn cpu_usage_percent(samples: &[CpuSample]) -> f64 {
    samples
        .iter()
        .map(|s| 100.0 * (1.0 - s.idle_delta as f64 / s.total_delta as f64))
        .sum::<f64>()
        / samples.len() as f64
}

fn eq_to_three_decimal_places(a: f64, b: f64) -> bool {
    (a - b).abs() < 0.0005
}

#[test]
fn single_poll_computes_expected_usage() {
    let reader = MockReader::new(vec![Ok(ProcStatStatus::new(100, 50, 500))]);
    let mut monitor = CpuMonitor::new(reader, &cpu_config(4));

    let stats = monitor.poll().expect("poll should succeed");

    assert!(eq_to_three_decimal_places(cpu_usage_percent(&stats), 70.000));
}

#[test]
fn multiple_polls_average_and_buffering() {
    let reader = MockReader::new(vec![
        Ok(ProcStatStatus::new(100, 50, 500)),
        Ok(ProcStatStatus::new(200, 60, 700)),
    ]);
    let mut monitor = CpuMonitor::new(reader, &cpu_config(4));

    let reading1 = monitor.poll().unwrap();
    assert!(eq_to_three_decimal_places(cpu_usage_percent(&reading1), 70.000));

    let reading2 = monitor.poll().unwrap();
    assert!(eq_to_three_decimal_places(cpu_usage_percent(&reading2), 57.500));
}

#[test]
fn sample_buffer_trims_to_max_samples() {
    let reader = MockReader::new(vec![
        Ok(ProcStatStatus::new(0, 0, 100)),
        Ok(ProcStatStatus::new(50, 0, 200)),
        Ok(ProcStatStatus::new(100, 0, 300)),
    ]);
    let mut monitor = CpuMonitor::new(reader, &cpu_config(2));

    let _ = monitor.poll().unwrap();

    let reading2 = monitor.poll().unwrap();
    assert!(eq_to_three_decimal_places(cpu_usage_percent(&reading2), 75.000));

    let reading3 = monitor.poll().unwrap();
    assert!(eq_to_three_decimal_places(cpu_usage_percent(&reading3), 50.000));
}

#[test]
fn cpu_monitor_error_is_propagated() {
    let reader = MockReader::<ProcStatStatus>::new(vec![Err("boom".to_string())]);
    let mut monitor = CpuMonitor::new(reader, &cpu_config(1));

    let err = monitor.poll().unwrap_err();
    assert_eq!(err, "boom");
}

#[test]
fn cpu_monitor_averages_a_window_of_two() {
    let reader = MockReader::new(vec![
        Ok(ProcStatStatus::new(100, 50, 500)),
        Ok(ProcStatStatus::new(200, 60, 700)),
        Ok(ProcStatStatus::new(200, 60, 800)),
    ]);
    let mut monitor = CpuMonitor::new(reader, &cpu_config(2));

    let first = monitor.poll().unwrap();
    assert!(eq_to_three_decimal_places(cpu_usage_percent(&first), 70.000));
    let second = monitor.poll().unwrap();
    assert!(eq_to_three_decimal_places(cpu_usage_percent(&second), 57.500));
    assert!(eq_to_three_decimal_places(cpu_usage_percent(&second[1..]), 45.000));
    // The first sample has left the window: 45% and 100% remain.
    let third = monitor.poll().unwrap();
    assert_eq!(third.len(), 2);
    assert!(eq_to_three_decimal_places(cpu_usage_percent(&third), 72.500));
}

#[test]
fn cpu_monitor_samples_exact_ticks() {
    let reader = MockReader::new(vec![
        Ok(ProcStatStatus::new(100, 50, 500)),
        Ok(ProcStatStatus::new(200, 60, 700)),
        Err("gone".to_string()),
        Ok(ProcStatStatus::new(200, 70, 650)),
    ]);
    let mut monitor = CpuMonitor::new(reader, &cpu_config(2));

    assert_eq!(monitor.poll().unwrap(), vec![CpuSample::new(150, 500)]);
    assert_eq!(monitor.poll().unwrap(), vec![CpuSample::new(150, 500), CpuSample::new(110, 200)]);
    assert_eq!(monitor.poll().unwrap_err(), "gone");
    // The failed poll has left the previous counters alone, and a total that
    // has gone backwards yields no ticks.
    assert_eq!(monitor.poll().unwrap(), vec![CpuSample::new(110, 200), CpuSample::new(10, 0)]);
}

fn make_sensor_sample(device_name: String, reads: u64, writes: u64) -> ProcDiskStats {
    ProcDiskStats::new(vec![ProcDiskStatsStatus::new(device_name, reads, writes)])
}

#[test]
fn first_poll_gives_zero_result() {
    let statuses = make_sensor_sample("nvme0n1".to_string(), 1000, 1000);
    let reader = MockReader::new(vec![Ok(statuses)]);
    let mut monitor = DiskMonitor::new(reader, &disk_config(3));

    let result = monitor.poll();

    assert!(result.is_ok());
    let result = result.unwrap();
    assert_eq!(result[DISK_STAT_READ_INDEX].ops, 0);
    assert_eq!(result[DISK_STAT_WRITE_INDEX].ops, 0);
}

#[test]
fn second_poll_gives_expected_result() {
    let sample1 = make_sensor_sample("nvme0n1".to_string(), 1000, 1000);
    let sample2 = make_sensor_sample("nvme0n1".to_string(), 2000, 2000);
    let reader = MockReader::new(vec![Ok(sample1), Ok(sample2)]);
    let mut monitor = DiskMonitor::new(reader, &disk_config(3));

    _ = monitor.poll();
    let result = monitor.poll();

    assert!(result.is_ok());
    let result = result.unwrap();
    assert_eq!(result[DISK_STAT_READ_INDEX].ops, (2000 - 1000) / 2);
    assert_eq!(result[DISK_STAT_WRITE_INDEX].ops, (2000 - 1000) / 2);
}

#[test]
fn multiple_polls_gives_expected_result() {
    let sample1 = make_sensor_sample("nvme0n1".to_string(), 1000, 1000);
    let sample2 = make_sensor_sample("nvme0n1".to_string(), 2000, 2000);
    let sample3 = make_sensor_sample("nvme0n1".to_string(), 3000, 3000);
    let reader = MockReader::new(vec![Ok(sample1), Ok(sample2), Ok(sample3)]);
    let mut monitor = DiskMonitor::new(reader, &disk_config(3));

    _ = monitor.poll();

    let result1 = monitor.poll();
    let result2 = monitor.poll();

    assert!(result1.is_ok());
    let result1 = result1.unwrap();
    assert_eq!(result1[DISK_STAT_READ_INDEX].ops, (2000 - 1000) / 2);
    assert_eq!(result1[DISK_STAT_WRITE_INDEX].ops, (2000 - 1000) / 2);

    assert!(result2.is_ok());
    let result2 = result2.unwrap();
    assert_eq!(result2[DISK_STAT_READ_INDEX].ops, (3000 - 1000) / 3);
    assert_eq!(result2[DISK_STAT_WRITE_INDEX].ops, (3000 - 1000) / 3);
    assert_eq!(result2[DISK_STAT_READ_INDEX].direction, DiskDirection::Read);
    assert_eq!(result2[DISK_STAT_WRITE_INDEX].direction, DiskDirection::Write);
}

#[test]
fn disk_monitor_samples_buffer_trims_to_max_size() {
    let sample1 = make_sensor_sample("nvme0n1".to_string(), 1000, 1000);
    let sample2 = make_sensor_sample("nvme0n1".to_string(), 2000, 2000);
    let sample3 = make_sensor_sample("nvme0n1".to_string(), 3000, 3000);
    let reader = MockReader::new(vec![Ok(sample1), Ok(sample2), Ok(sample3)]);
    let mut monitor = DiskMonitor::new(reader, &disk_config(2));

    _ = monitor.poll();
    _ = monitor.poll();
    _ = monitor.poll();

    assert!(monitor.sample_buffer_len() == 2);
}

#[test]
fn include_only_logical_disks() {
    let samples1 = ProcDiskStats::new(vec![
        ProcDiskStatsStatus::new("nvme0n1".to_string(), 1000, 1000),
        ProcDiskStatsStatus::new("nvme0n1p1".to_string(), 1000, 1000),
        ProcDiskStatsStatus::new("nvme0n1p2".to_string(), 1000, 1000),
        ProcDiskStatsStatus::new("nvme0n1p3".to_string(), 1000, 1000),
        ProcDiskStatsStatus::new("nvme0n1p133".to_string(), 1000, 1000),
        ProcDiskStatsStatus::new("sda".to_string(), 1000, 1000),
        ProcDiskStatsStatus::new("sda1".to_string(), 1000, 1000),
        ProcDiskStatsStatus::new("dm-0".to_string(), 1000, 1000),
        ProcDiskStatsStatus::new("loop0".to_string(), 1000, 1000),
    ]);
    let samples2 = ProcDiskStats::new(vec![
        ProcDiskStatsStatus::new("nvme0n1".to_string(), 2000, 2000),
        ProcDiskStatsStatus::new("nvme0n1p1".to_string(), 2000, 2000),
        ProcDiskStatsStatus::new("nvme0n1p2".to_string(), 2000, 2000),
        ProcDiskStatsStatus::new("nvme0n1p3".to_string(), 2000, 2000),
        ProcDiskStatsStatus::new("nvme0n1p133".to_string(), 1000, 1000),
        ProcDiskStatsStatus::new("sda".to_string(), 2000, 2000),
        ProcDiskStatsStatus::new("sda1".to_string(), 2000, 2000),
        ProcDiskStatsStatus::new("dm-0".to_string(), 2000, 2000),
        ProcDiskStatsStatus::new("loop0".to_string(), 2000, 2000),
    ]);
    let reader = MockReader::new(vec![Ok(samples1), Ok(samples2)]);
    let mut monitor = DiskMonitor::new(reader, &disk_config(2));

    _ = monitor.poll();

    let result = monitor.poll();

    assert!(result.is_ok());
    let result = result.unwrap();
    assert_eq!(result[DISK_STAT_READ_INDEX].ops, ((2000 + 2000) - (1000 + 1000)) / 2);
    assert_eq!(result[DISK_STAT_WRITE_INDEX].ops, ((2000 + 2000) - (1000 + 1000)) / 2);
}

#[test]
fn disk_monitor_error_is_propagated() {
    let reader = MockReader::<ProcDiskStats>::new(vec![Err("boom".to_string())]);
    let mut monitor = DiskMonitor::new(reader, &disk_config(1));

    let err = monitor.poll().unwrap_err();
    assert_eq!(err, "boom");
}

#[test]
fn disk_monitor_four_polls_progress() {
    let reader = MockReader::new(vec![
        Ok(make_sensor_sample("nvme0n1".to_string(), 1000, 1000)),
        Ok(make_sensor_sample("nvme0n1".to_string(), 2000, 2000)),
        Ok(make_sensor_sample("nvme0n1".to_string(), 3000, 3000)),
        Ok(make_sensor_sample("nvme0n1".to_string(), 3000, 2500)),
    ]);
    let mut monitor = DiskMonitor::new(reader, &disk_config(3));

    let first = monitor.poll().unwrap();
    assert_eq!((first[0].ops, first[1].ops), (0, 0));
    let second = monitor.poll().unwrap();
    assert_eq!((second[0].ops, second[1].ops), (500, 500));
    let third = monitor.poll().unwrap();
    assert_eq!((third[0].ops, third[1].ops), (666, 666));
    // The window now holds 1000, 1000 and the last deltas: no reads, and no
    // writes either, since the write counter has gone backwards.
    let fourth = monitor.poll().unwrap();
    assert_eq!((fourth[0].ops, fourth[1].ops), (666, 666));
    assert_eq!(monitor.sample_buffer_len(), 3);
}

#[test]
fn disk_monitor_keeps_state_on_error() {
    let reader = MockReader::new(vec![
        Ok(make_sensor_sample("sda".to_string(), 1000, 100)),
        Err("unreadable".to_string()),
        Ok(make_sensor_sample("sda".to_string(), 1600, 400)),
    ]);
    let mut monitor = DiskMonitor::new(reader, &disk_config(4));

    let _ = monitor.poll().unwrap();
    assert_eq!(monitor.poll().unwrap_err(), "unreadable");
    assert_eq!(monitor.sample_buffer_len(), 1);
    let result = monitor.poll().unwrap();
    assert_eq!((result[0].ops, result[1].ops), ((0 + 600) / 2, (0 + 300) / 2));
}

#[test]
fn is_logical_disk_tells_disks_from_partitions() {
    assert!(is_logical_disk("nvme0n1"));
    assert!(is_logical_disk("sda"));
    assert!(is_logical_disk("hdb"));
    assert!(!is_logical_disk("nvme0n1p1"));
    assert!(!is_logical_disk("sda1"));
    assert!(!is_logical_disk("hdb7"));
    assert!(!is_logical_disk("dm-0"));
    assert!(!is_logical_disk("loop0"));
    assert!(!is_logical_disk(""));
    assert!(is_logical_disk("sd"));
}

const TOTAL_KIB: u64 = 31934904;

#[test]
fn memory_monitor_single_poll_gives_expected_result() {
    const AVAILABLE_KIB: u64 = 22048124;

    let mock_memory_reader =
        MockReader::new(vec![Ok(ProcMemInfoStatus::new(TOTAL_KIB, AVAILABLE_KIB))]);

    let mut monitor = MemoryMonitor::new(mock_memory_reader, &AppConfiguration::default());
    let result = monitor.poll();

    assert!(result.is_ok());
    let result = result.unwrap();

    assert_eq!(result.used_kib, TOTAL_KIB - AVAILABLE_KIB);
    assert_eq!(result.total_kib, TOTAL_KIB);
}

#[test]
fn memory_monitor_multiple_poll_gives_expected_result() {
    let reading1 = 22048124;
    let reading2 = 21662400;
    let reading3 = 23576212;

    let mock_memory_reader = MockReader::new(vec![
        Ok(ProcMemInfoStatus::new(TOTAL_KIB, reading1)),
        Ok(ProcMemInfoStatus::new(TOTAL_KIB, reading2)),
        Ok(ProcMemInfoStatus::new(TOTAL_KIB, reading3)),
    ]);

    let mut monitor = MemoryMonitor::new(mock_memory_reader, &memory_config(3));

    let result1 = monitor.poll();
    let result2 = monitor.poll();
    let result3 = monitor.poll();

    assert!(result1.is_ok());
    let result1 = result1.unwrap();
    assert_eq!(result1.used_kib, TOTAL_KIB - reading1);
    assert_eq!(result1.total_kib, TOTAL_KIB);

    assert!(result2.is_ok());
    let result2 = result2.unwrap();
    assert_eq!(result2.used_kib, TOTAL_KIB - ((reading2 + reading1) / 2));
    assert_eq!(result2.total_kib, TOTAL_KIB);

    assert!(result3.is_ok());
    let result2 = result3.unwrap();
    assert_eq!(result2.used_kib, TOTAL_KIB - ((reading3 + reading2 + reading1) / 3));
    assert_eq!(result2.total_kib, TOTAL_KIB);
}

#[test]
fn memory_monitor_samples_buffer_trims_to_max_size() {
    let reading1 = 22048124;
    let reading2 = 21662400;
    let reading3 = 23576212;

    let mock_memory_reader = MockReader::new(vec![
        Ok(ProcMemInfoStatus::new(TOTAL_KIB, reading1)),
        Ok(ProcMemInfoStatus::new(TOTAL_KIB, reading2)),
        Ok(ProcMemInfoStatus::new(TOTAL_KIB, reading3)),
    ]);

    let mut monitor = MemoryMonitor::new(mock_memory_reader, &memory_config(2));

    let result1 = monitor.poll();
    let result2 = monitor.poll();
    let result3 = monitor.poll();

    assert!(result1.is_ok());
    let result1 = result1.unwrap();
    assert_eq!(result1.used_kib, TOTAL_KIB - reading1);
    assert_eq!(result1.total_kib, TOTAL_KIB);

    assert!(result2.is_ok());
    let result2 = result2.unwrap();
    assert_eq!(result2.used_kib, TOTAL_KIB - ((reading2 + reading1) / 2));
    assert_eq!(result2.total_kib, TOTAL_KIB);

    assert!(result3.is_ok());
    let result3 = result3.unwrap();
    assert_eq!(result3.used_kib, TOTAL_KIB - ((reading2 + reading3) / 2));
    assert_eq!(result3.total_kib, TOTAL_KIB);
}

#[test]
fn memory_monitor_error_is_propagated() {
    let reader = MockReader::<ProcMemInfoStatus>::new(vec![Err("boom".to_string())]);
    let mut monitor = MemoryMonitor::new(reader, &memory_config(1));

    let err = monitor.poll().unwrap_err();
    assert_eq!(err, "boom");
}

#[test]
fn memory_monitor_saturates_used_at_zero() {
    let reader = MockReader::new(vec![
        Ok(ProcMemInfoStatus::new(1000, 4000)),
        Ok(ProcMemInfoStatus::new(u64::MAX, 0)),
        Ok(ProcMemInfoStatus::new(u64::MAX, 1)),
    ]);
    let mut monitor = MemoryMonitor::new(reader, &memory_config(2));

    assert_eq!(monitor.poll().unwrap().used_kib, 0);
    assert_eq!(monitor.poll().unwrap().used_kib, u64::MAX / 2);
    // The sum of the window is beyond a u64; the mean is still exact.
    assert_eq!(monitor.poll().unwrap().used_kib, u64::MAX - 1);
}

fn create_device_status(name: &str, rx: u64, tx: u64) -> ProcNetDevDeviceStatus {
    ProcNetDevDeviceStatus::new(name.to_string(), rx, tx, true)
}

#[test]
fn network_monitor_single_poll_gives_expected_result() {
    let status = ProcNetDevStatus::new(vec![
        create_device_status("eth0", 2000, 1000),
        create_device_status("lo", 7000, 5000),
    ]);

    let reader = MockReader::new(vec![Ok(status)]);
    let utils = MockNetworkUtilities::new(vec!["eth0"]);

    let mut monitor = NetworkMonitor::new(reader, utils, &network_config(3));
    let result = monitor.poll();

    assert!(result.is_ok());
    let arr = result.unwrap();

    // The first poll only sets the baseline.
    assert_eq!(arr[NETWORK_STAT_RX_INDEX].bytes, 0);
    assert_eq!(arr[NETWORK_STAT_RX_INDEX].direction, NetworkDirection::Download);
    assert_eq!(arr[NETWORK_STAT_TX_INDEX].bytes, 0);
    assert_eq!(arr[NETWORK_STAT_TX_INDEX].direction, NetworkDirection::Upload);
}

#[test]
fn network_monitor_multiple_poll_gives_expected_result() {
    let sample1 = ProcNetDevStatus::new(vec![
        create_device_status("eth0", 2000, 1000),
        create_device_status("lo", 10, 10),
    ]);
    let sample2 = ProcNetDevStatus::new(vec![
        create_device_status("eth0", 6000, 3000),
        create_device_status("lo", 20, 40),
    ]);
    let sample3 = ProcNetDevStatus::new(vec![
        create_device_status("eth0", 9000, 6000),
        create_device_status("lo", 30, 70),
    ]);

    let reader = MockReader::new(vec![Ok(sample1), Ok(sample2), Ok(sample3)]);
    let utils = MockNetworkUtilities::new(vec!["eth0"]);

    let mut monitor = NetworkMonitor::new(reader, utils, &network_config(3));

    // The first poll only sets the baseline, so its sample is zero.
    let result1 = monitor.poll().unwrap();
    assert_eq!(result1[NETWORK_STAT_RX_INDEX].bytes, 0);
    assert_eq!(result1[NETWORK_STAT_TX_INDEX].bytes, 0);

    let result2 = monitor.poll().unwrap();
    assert_eq!(result2[NETWORK_STAT_RX_INDEX].bytes, (0 + 4000) / 2);
    assert_eq!(result2[NETWORK_STAT_TX_INDEX].bytes, (0 + 2000) / 2);

    let result3 = monitor.poll().unwrap();
    assert_eq!(result3[NETWORK_STAT_RX_INDEX].bytes, (0 + 4000 + 3000) / 3);
    assert_eq!(result3[NETWORK_STAT_TX_INDEX].bytes, (0 + 2000 + 3000) / 3);
}

#[test]
fn network_monitor_samples_buffer_trims_to_max_size() {
    let sample1 = ProcNetDevStatus::new(vec![create_device_status("eth0", 2000, 1000)]);
    let sample2 = ProcNetDevStatus::new(vec![create_device_status("eth0", 5000, 3000)]);
    let sample3 = ProcNetDevStatus::new(vec![create_device_status("eth0", 9000, 4000)]);
    let sample4 = ProcNetDevStatus::new(vec![create_device_status("eth0", 12000, 6000)]);

    let reader = MockReader::new(vec![Ok(sample1), Ok(sample2), Ok(sample3), Ok(sample4)]);
    let utils = MockNetworkUtilities::new(vec!["eth0"]);

    let mut monitor = NetworkMonitor::new(reader, utils, &network_config(2));

    let _ = monitor.poll().unwrap();
    let _ = monitor.poll().unwrap();

    let result3 = monitor.poll().unwrap();
    assert_eq!(result3[NETWORK_STAT_RX_INDEX].bytes, (3000 + 4000) / 2);
    assert_eq!(result3[NETWORK_STAT_TX_INDEX].bytes, (2000 + 1000) / 2);

    let result4 = monitor.poll().unwrap();
    assert_eq!(result4[NETWORK_STAT_RX_INDEX].bytes, (4000 + 3000) / 2);
    assert_eq!(result4[NETWORK_STAT_TX_INDEX].bytes, (1000 + 2000) / 2);
}

#[test]
fn network_monitor_error_is_propagated() {
    let reader = MockReader::<ProcNetDevStatus>::new(vec![Err("boom".to_string())]);
    let utils = MockNetworkUtilities::new(vec!["eth0"]);
    let mut monitor = NetworkMonitor::new(reader, utils, &network_config(1));

    let err = monitor.poll().unwrap_err();
    assert_eq!(err, "boom");
}

#[test]
fn network_monitor_keeps_state_on_error() {
    let reader = MockReader::new(vec![
        Ok(ProcNetDevStatus::new(vec![create_device_status("eth0", 1000, 100)])),
        Err("unreadable".to_string()),
        Ok(ProcNetDevStatus::new(vec![create_device_status("eth0", 1600, 400)])),
    ]);
    let utils = MockNetworkUtilities::new(vec!["eth0"]);
    let mut monitor = NetworkMonitor::new(reader, utils, &network_config(4));

    let first = monitor.poll().unwrap();
    assert_eq!((first[0].bytes, first[1].bytes), (0, 0));
    assert_eq!(monitor.poll().unwrap_err(), "unreadable");
    // The deltas are taken against the totals of the last successful poll.
    let result = monitor.poll().unwrap();
    assert_eq!((result[0].bytes, result[1].bytes), ((0 + 600) / 2, (0 + 300) / 2));
}

#[test]
fn network_monitor_ignores_rows_of_virtual_interfaces() {
    let physical_only = vec![
        ProcNetDevStatus::new(vec![create_device_status("eth0", 2000, 1000)]),
        ProcNetDevStatus::new(vec![create_device_status("eth0", 6000, 3000)]),
    ];
    let with_virtual = vec![
        ProcNetDevStatus::new(vec![
            create_device_status("lo", 7000, 5000),
            create_device_status("eth0", 2000, 1000),
        ]),
        ProcNetDevStatus::new(vec![
            create_device_status("eth0", 6000, 3000),
            create_device_status("docker0", u64::MAX, 1),
            create_device_status("lo", 1, u64::MAX),
        ]),
    ];
    let mut one = NetworkMonitor::new(
        MockReader::new(physical_only.into_iter().map(Ok).collect()),
        MockNetworkUtilities::new(vec!["eth0"]),
        &network_config(3),
    );
    let mut other = NetworkMonitor::new(
        MockReader::new(with_virtual.into_iter().map(Ok).collect()),
        MockNetworkUtilities::new(vec!["eth0"]),
        &network_config(3),
    );

    assert_eq!(one.poll(), other.poll());
    let result = one.poll();
    assert_eq!(result, other.poll());
    let result = result.unwrap();
    assert_eq!((result[0].bytes, result[1].bytes), (2000, 1000));
}

#[test]
fn network_monitor_clamps_a_counter_that_went_backwards() {
    let reader = MockReader::new(vec![
        Ok(ProcNetDevStatus::new(vec![create_device_status("eth0", 5000, 900)])),
        Ok(ProcNetDevStatus::new(vec![create_device_status("eth0", 100, 1000)])),
        Ok(ProcNetDevStatus::new(vec![
            create_device_status("eth0", 400, 1000),
            create_device_status("veth9", u64::MAX, u64::MAX),
        ])),
    ]);
    let utils = MockNetworkUtilities::new(vec!["eth0"]);
    let mut monitor = NetworkMonitor::new(reader, utils, &network_config(1));

    let _ = monitor.poll().unwrap();
    let reset = monitor.poll().unwrap();
    assert_eq!((reset[0].bytes, reset[1].bytes), (0, 100));
    // The virtual interface adds nothing, whatever its counters hold.
    let next = monitor.poll().unwrap();
    assert_eq!((next[0].bytes, next[1].bytes), (300, 0));
}
