//! The classifier of network interfaces.

use crate::text::{chars_of, joined};
use vstd::prelude::*;

verus! {

/// Tells physical network interfaces from virtual ones.
///
/// An interface is physical if the system's device tree holds a backing
/// device for it. The answer depends on the machine and on the moment, so
/// nothing is promised of it; what a monitor does with each answer is stated
/// by the monitor.
pub trait NetworkUtilsTrait {
    /// Whether the interface of the given name is backed by a device.
    fn is_physical_interface(&self, device_name: &str) -> bool;
}

/// Where the system's device tree describes network interfaces.
pub struct NetworkUtils;

impl NetworkUtils {
    /// A new classifier.
    pub fn new() -> Self {
        Self {  }
    }

    /// The path whose existence makes the interface of the given name a
    /// physical one.
    pub fn device_path(&self, device_name: &str) -> (path: String)
        ensures
            path@ == "/sys/class/net/"@ + device_name@ + "/device"@,
    {
        let mut tail = chars_of(device_name);
        let suffix = chars_of("/device");
        let mut i: usize = 0;
        while i < suffix.len()
            invariant
                i <= suffix@.len(),
                tail@ == device_name@ + suffix@.take(i as int),
            decreases suffix@.len() - i,
        {
            tail.push(suffix[i]);
            assert(device_name@ + suffix@.take(i + 1) =~= (device_name@ + suffix@.take(
                i as int,
            )).push(suffix@[i as int]));
            i = i + 1;
        }
        assert(suffix@.take(suffix@.len() as int) =~= suffix@);
        let path = joined("/sys/class/net/", &tail);
        assert(path@ =~= "/sys/class/net/"@ + device_name@ + "/device"@);
        path
    }
}

} // verus!
