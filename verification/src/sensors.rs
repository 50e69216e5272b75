//! Readers of the kernel's pseudo-files: one snapshot type and one parser
//! per metric family, and the classifier of network interfaces.

pub mod network_utilities;
pub mod proc_disk_stats_reader;
pub mod proc_meminfo_reader;
pub mod proc_net_dev_reader;
pub mod proc_stat_reader;
pub mod sensor_traits;
