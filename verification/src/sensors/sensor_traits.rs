//! The capability that every monitor polls.

use vstd::prelude::*;

verus! {

/// A sensor that can be read for its current state.
///
/// A read is a single fallible attempt: nothing is cached and nothing is
/// retried, so two reads of one sensor may differ. Nothing is promised of the
/// outcome; what a monitor does with each outcome is stated by the monitor.
pub trait SensorReader {
    /// The snapshot that a successful read yields.
    type Output;

    /// Reads the sensor once.
    fn read(&self) -> Result<Self::Output, String>;
}

} // verus!
