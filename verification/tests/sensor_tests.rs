use cosmic_vitals::sensors::network_utilities::{NetworkUtils, NetworkUtilsTrait};
use cosmic_vitals::sensors::proc_disk_stats_reader::ProcDiskStatsReader;
use cosmic_vitals::sensors::proc_meminfo_reader::{
    MemoryInfo, ProcMemInfoReader, ProcMemInfoSensorReader, ProcMemInfoStatus,
};
use cosmic_vitals::sensors::proc_net_dev_reader::ProcNetDevReader;
use cosmic_vitals::sensors::proc_stat_reader::{ProcStatSensorReader, ProcStatStatus};

const STAT: &str = "cpu  2255 34 2290 22625563 6290 127 456 0 0 0\n\
cpu0 1132 34 1441 11311718 3675 127 438 0 0 0\n\
intr 114930548 113199788 3 0 5 263 0 4 [...]\n\
ctxt 1990473\n";

#[test]
fn cpu_line_is_parsed() {
    let reader = ProcStatSensorReader;
    let status = reader.parse_cpu_stats_line("cpu  2255 34 2290 22625563 6290 127 456 0 0 0").unwrap();
    assert_eq!(
        status,
        ProcStatStatus::new(22625563, 6290, 2255 + 34 + 2290 + 22625563 + 6290 + 127 + 456)
    );
    assert_eq!(reader.parse_contents(STAT).unwrap(), status);
}

#[test]
fn cpu_line_counts_malformed_columns_as_zero() {
    let reader = ProcStatSensorReader;
    let status = reader.parse_cpu_stats_line("cpu 1 x 3 4 -5 6").unwrap();
    assert_eq!(status, ProcStatStatus::new(4, 0, 1 + 3 + 4 + 6));
}

#[test]
fn cpu_line_total_stops_at_the_largest_number() {
    let reader = ProcStatSensorReader;
    let line = "cpu 18446744073709551615 1 2 3 4";
    assert_eq!(reader.parse_cpu_stats_line(line).unwrap(), ProcStatStatus::new(3, 4, u64::MAX));
}

#[test]
fn cpu_line_is_rejected_when_malformed() {
    let reader = ProcStatSensorReader;
    let message = "/proc/stat is not in a valid format.".to_string();
    // Too few columns for an iowait counter.
    assert_eq!(reader.parse_cpu_stats_line("cpu 1 2 3 4"), Err(message.clone()));
    // No recognised prefix.
    assert_eq!(reader.parse_cpu_stats_line("cpu0 1 2 3 4 5 6"), Err(message.clone()));
    assert_eq!(reader.parse_cpu_stats_line("1 2 3 4 5 6"), Err(message.clone()));
    assert_eq!(reader.parse_cpu_stats_line(""), Err(message.clone()));
    assert_eq!(reader.parse_contents(""), Err(message.clone()));
    assert_eq!(reader.parse_contents("\ncpu 1 2 3 4 5\n"), Err(message));
}

const MEMINFO: &str = "MemTotal:       31934904 kB\n\
MemFree:        12345678 kB\n\
MemAvailable:   22048124 kB\n\
HugePages_Total:       0\n";

#[test]
fn meminfo_is_parsed() {
    let reader = ProcMemInfoSensorReader;
    assert_eq!(reader.parse_contents(MEMINFO), Ok(ProcMemInfoStatus::new(31934904, 22048124)));
    assert_eq!(reader.parse_contents(""), Ok(ProcMemInfoStatus::new(0, 0)));
    assert_eq!(
        reader.parse_contents("MemAvailable: 5 kB\r\nMemAvailable: 7 kB"),
        Ok(ProcMemInfoStatus::new(0, 7))
    );
}

#[test]
fn meminfo_line_is_parsed() {
    let reader = ProcMemInfoSensorReader;
    assert_eq!(
        reader.parse_proc_file_line("  MemTotal :   42 kB"),
        Ok(("MemTotal".to_string(), 42))
    );
    assert_eq!(reader.parse_proc_file_line("Key: many"), Ok(("Key".to_string(), 0)));
    assert_eq!(
        reader.parse_proc_file_line("no colon"),
        Err("Invalid line format on line: no colon".to_string())
    );
    assert_eq!(
        reader.parse_proc_file_line("a: b: c"),
        Err("Invalid line format on line: a: b: c".to_string())
    );
    assert_eq!(
        reader.parse_proc_file_line("Empty:   "),
        Err("Invalid line format on line: Empty:   ".to_string())
    );
}

#[test]
fn meminfo_fails_on_the_first_malformed_line() {
    let reader = ProcMemInfoSensorReader;
    assert_eq!(
        reader.parse_contents("MemTotal: 1 kB\nbroken\nalso broken\n"),
        Err("Invalid file format: /proc/meminfo Invalid line format on line: broken".to_string())
    );
}

#[test]
fn memory_info_reports_memory_in_use() {
    let reader = ProcMemInfoReader::new();
    assert_eq!(
        reader.get_memory_info(MEMINFO),
        Ok(MemoryInfo::new(31934904, 31934904 - 22048124))
    );
    assert_eq!(
        reader.get_memory_info("MemTotal: 10 kB\nMemAvailable: 30 kB\n"),
        Ok(MemoryInfo::new(10, 0))
    );
    assert!(reader.get_memory_info("broken").is_err());
}

const NET_DEV: &str = "Inter-|   Receive                                                |  Transmit\n \
face |bytes    packets errs drop fifo frame compressed multicast|bytes    packets errs drop fifo colls carrier compressed\n    \
lo: 7000 10 0 0 0 0 0 0 5000 10 0 0 0 0 0 0\n  \
eth0: 2000 20 0 0 0 0 0 0 1000 30 0 0 0 0 0 0\n";

struct OnlyEth0;

impl NetworkUtilsTrait for OnlyEth0 {
    fn is_physical_interface(&self, device_name: &str) -> bool {
        device_name == "eth0"
    }
}

#[test]
fn net_dev_is_parsed() {
    let reader = ProcNetDevReader;
    let status = reader.parse_contents(NET_DEV, &OnlyEth0).unwrap();
    assert_eq!(status.device_statuses.len(), 2);
    let lo = &status.device_statuses[0];
    assert_eq!((lo.device_name.as_str(), lo.rx_bytes, lo.tx_bytes), ("lo", 7000, 5000));
    assert!(!lo.is_physical_device);
    let eth0 = &status.device_statuses[1];
    assert_eq!((eth0.device_name.as_str(), eth0.rx_bytes, eth0.tx_bytes), ("eth0", 2000, 1000));
    assert!(eth0.is_physical_device);
}

#[test]
fn net_dev_skips_the_heading_and_fails_on_short_rows() {
    let reader = ProcNetDevReader;
    assert!(reader.parse_contents("", &OnlyEth0).unwrap().device_statuses.is_empty());
    assert!(reader.parse_contents("only\ntwo lines", &OnlyEth0).unwrap().device_statuses.is_empty());
    assert_eq!(
        reader.parse_contents("a\nb\neth0: 1 2 3\n", &OnlyEth0).unwrap_err(),
        "Invalid file on line: eth0: 1 2 3"
    );
    assert_eq!(reader.parse_proc_file_line("").unwrap_err(), "Invalid file on line: ");
}

#[test]
fn net_dev_row_strips_one_trailing_colon() {
    let reader = ProcNetDevReader;
    let row = reader.parse_proc_file_line("wl:an:: 1 2 3 4 5 6 7 8 9 10 11 12 13 14 15 x").unwrap();
    assert_eq!((row.device_name.as_str(), row.rx_bytes, row.tx_bytes), ("wl:an:", 1, 9));
}

const DISKSTATS: &str = " 259       0 nvme0n1 1000 2 3 4 2000 6 7 8 9 10 11 12 13 14 15 16 17\n\
\n \
259       1 nvme0n1p1 10 2 3 4 20 6 7 8 9 10 11 12 13 14 15 16 17\n";

#[test]
fn diskstats_is_parsed() {
    let reader = ProcDiskStatsReader;
    let stats = reader.parse_contents(DISKSTATS).unwrap();
    assert_eq!(stats.device_statuses.len(), 2);
    let disk = &stats.device_statuses[0];
    assert_eq!(
        (disk.device_name.as_str(), disk.reads_completed, disk.writes_completed),
        ("nvme0n1", 1000, 2000)
    );
    let partition = &stats.device_statuses[1];
    assert_eq!(
        (partition.device_name.as_str(), partition.reads_completed, partition.writes_completed),
        ("nvme0n1p1", 10, 20)
    );
}

#[test]
fn diskstats_fails_on_short_rows() {
    let reader = ProcDiskStatsReader;
    assert_eq!(
        reader.parse_contents("8 0 sda 1 2 3 4 5 6 7 8 9 10 11\n").unwrap_err(),
        "Invalid file format /proc/diskstats"
    );
    assert!(reader.parse_disk_stats_line("").is_err());
    assert!(reader.parse_contents(" \n\t\n").unwrap().device_statuses.is_empty());
}

#[test]
fn device_path_names_the_backing_device() {
    assert_eq!(NetworkUtils::new().device_path("eth0"), "/sys/class/net/eth0/device");
    assert_eq!(NetworkUtils::new().device_path(""), "/sys/class/net//device");
}
