//! The tunable configuration: per-target rectangle overrides and the sleep
//! intervals of the activation loop.

use vstd::prelude::*;
use crate::types::Point;

verus! {

/// The five sleep intervals of the activation loop, in seconds.
#[derive(Clone, Copy, Debug, PartialEq, Eq, Structural)]
pub struct Interval {
    pub handle_success: u64,
    pub each: u64,
    pub long: u64,
    pub cs2_wait: u64,
    pub e5_wait: u64,
}

/// The default intervals.
pub open spec fn default_interval() -> Interval {
    Interval { handle_success: 2, each: 3, long: 10, cs2_wait: 20, e5_wait: 16 }
}

impl Interval {
    /// Seconds to sleep after a successful dispatch.
    pub fn handle_success(&self) -> (s: u64)
        ensures
            s == self.handle_success,
    {
        self.handle_success
    }

    /// Seconds to sleep between idle ticks.
    pub fn each(&self) -> (s: u64)
        ensures
            s == self.each,
    {
        self.each
    }

    /// Seconds to sleep while the game target reports busy.
    pub fn cs2_wait(&self) -> (s: u64)
        ensures
            s == self.cs2_wait,
    {
        self.cs2_wait
    }

    /// Seconds to sleep while the launcher target reports busy.
    pub fn e5_wait(&self) -> (s: u64)
        ensures
            s == self.e5_wait,
    {
        self.e5_wait
    }

    /// The long sleep interval.
    pub fn long(&self) -> (s: u64)
        ensures
            s == self.long,
    {
        self.long
    }
}

impl Default for Interval {
    /// The defaults used when the configuration file is missing a key.
    fn default() -> (r: Interval)
        ensures
            r == default_interval(),
    {
        Interval { handle_success: 2, each: 3, long: 10, cs2_wait: 20, e5_wait: 16 }
    }
}

/// The loaded configuration: an optional override rectangle per target and
/// the sleep intervals.
#[derive(Clone, Copy, Debug)]
pub struct Configure {
    pub cs2: Option<Point>,
    pub e5: Option<Point>,
    pub interval: Interval,
}

impl Configure {
    /// The override rectangle for the game target, if configured.
    pub fn cs2(&self) -> (p: Option<Point>)
        ensures
            p == self.cs2,
    {
        self.cs2
    }

    /// The override rectangle for the launcher target, if configured.
    pub fn e5(&self) -> (p: Option<Point>)
        ensures
            p == self.e5,
    {
        self.e5
    }

    /// The sleep intervals.
    pub fn interval(&self) -> (i: Interval)
        ensures
            i == self.interval,
    {
        self.interval
    }
}

impl Default for Configure {
    /// No override rectangles, default intervals.
    fn default() -> (r: Configure)
        ensures
            r.cs2 is None,
            r.e5 is None,
            r.interval == default_interval(),
    {
        Configure { cs2: None, e5: None, interval: Interval::default() }
    }
}

} // verus!
