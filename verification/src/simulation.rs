//! A stand-in for the memory sensor that makes its readings up, for trying
//! the panel out where there is nothing to read.

use rand::Rng;
use vstd::prelude::*;

verus! {

/// The memory that the stand-in claims to have, in kilobytes.
pub const SIMULATED_TOTAL_KILOBYTES: u64 = 32676;

/// Made-up memory figures, in kilobytes.
#[derive(Default, Clone, Copy, Debug, PartialEq, Eq, Structural)]
pub struct MemoryInfo {
    pub total_kilobytes: u64,
    pub free_kilobytes: u64,
    pub available_kilobytes: u64,
}

/// Draws a number with `rand::Rng::gen_range` on the thread's generator,
/// which yields a number of the range `0..limit`, a different one from call
/// to call. An empty range is not drawn from.
#[verifier::external_body]
pub(crate) fn random_below(limit: u64) -> (value: u64)
    requires
        limit > 0,
    ensures
        value < limit,
{
    rand::thread_rng().gen_range(0..limit)
}

/// A memory sensor that makes its readings up.
pub struct MemoryMonitor;

impl MemoryMonitor {
    /// A new stand-in.
    pub fn new() -> Self {
        Self
    }

    /// The figures for a given amount of available memory: the total is
    /// fixed, and what is not available counts as free.
    pub fn info_for(available: u64) -> (info: MemoryInfo)
        requires
            available <= SIMULATED_TOTAL_KILOBYTES,
        ensures
            info == (MemoryInfo {
                total_kilobytes: SIMULATED_TOTAL_KILOBYTES,
                free_kilobytes: (SIMULATED_TOTAL_KILOBYTES - available) as u64,
                available_kilobytes: available,
            }),
    {
        MemoryInfo {
            total_kilobytes: SIMULATED_TOTAL_KILOBYTES,
            free_kilobytes: SIMULATED_TOTAL_KILOBYTES - available,
            available_kilobytes: available,
        }
    }

    /// Makes up a reading. It never fails; the available memory is below
    /// the total and the three figures add up.
    pub fn update(&self) -> (result: Result<MemoryInfo, String>)
        ensures
            result matches Ok(info) && info.total_kilobytes == SIMULATED_TOTAL_KILOBYTES
                && info.available_kilobytes < SIMULATED_TOTAL_KILOBYTES && info.free_kilobytes
                == SIMULATED_TOTAL_KILOBYTES - info.available_kilobytes,
    {
        let available = random_below(SIMULATED_TOTAL_KILOBYTES);
        Ok(Self::info_for(available))
    }
}

} // verus!
