//! The one piece of the performance counters that is plain arithmetic: a
//! clock reading as seconds and nanoseconds, flattened to nanoseconds.
//! Taking the readings and reporting them is operating-system work and
//! stays in the unverified shell.

use vstd::prelude::*;

verus! {

/// A clock reading: whole seconds and the nanoseconds within the second.
#[derive(Clone, Copy, PartialEq, Eq, Structural, Debug)]
pub struct Timespec {
    pub tv_sec: u32,
    pub tv_nsec: u32,
}

impl Timespec {
    /// The reading as a single nanosecond count. The widest reading fits:
    /// the largest second count times a billion stays under the `u64`
    /// ceiling.
    pub fn to_ns(&self) -> (r: u64)
        ensures
            r == self.tv_nsec + self.tv_sec * 1_000_000_000,
    {
        self.tv_nsec as u64 + self.tv_sec as u64 * 1_000_000_000
    }
}

} // verus!
