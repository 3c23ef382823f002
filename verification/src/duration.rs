//! Spans of time, as whole seconds and a rest in nanoseconds.
use vstd::prelude::*;

verus! {

#[derive(Clone, Copy, PartialEq, Eq, Structural)]
pub struct Duration {
    pub secs: u64,
    pub nanos: u32,
}

pub const NANOS_PER_SEC: u32 = 1_000_000_000;

pub const NANOS_PER_MILLI: u32 = 1_000_000;

impl Duration {
    /// The rest is less than a second.
    pub open spec fn wf(self) -> bool {
        self.nanos < NANOS_PER_SEC
    }

    /// The whole span in nanoseconds.
    pub open spec fn total_nanos(self) -> int {
        self.secs * NANOS_PER_SEC + self.nanos
    }

    /// The whole milliseconds of the span.
    pub open spec fn whole_millis(self) -> int {
        self.secs * 1000 + self.nanos as int / NANOS_PER_MILLI as int
    }

    pub fn from_secs(secs: u64) -> (d: Duration)
        ensures
            d.wf(),
            d.secs == secs,
            d.nanos == 0,
    {
        Duration { secs, nanos: 0 }
    }

    pub fn from_millis(millis: u64) -> (d: Duration)
        ensures
            d.wf(),
            d.whole_millis() == millis,
            d.total_nanos() == millis * NANOS_PER_MILLI,
    {
        Duration { secs: millis / 1000, nanos: (millis % 1000) as u32 * NANOS_PER_MILLI }
    }

    pub fn as_secs(&self) -> (secs: u64)
        ensures
            secs == self.secs,
    {
        self.secs
    }

    pub fn as_millis(&self) -> (millis: u128)
        ensures
            millis == self.whole_millis(),
    {
        self.secs as u128 * 1000 + (self.nanos / NANOS_PER_MILLI) as u128
    }

    /// What is left of this span after `elapsed`; nothing once all of it has passed.
    pub fn remaining_after(&self, elapsed: Duration) -> (rest: Option<Duration>)
        requires
            self.wf(),
            elapsed.wf(),
        ensures
            rest is None <==> elapsed.total_nanos() >= self.total_nanos(),
            rest matches Some(d) ==> d.wf() && d.total_nanos() == self.total_nanos()
                - elapsed.total_nanos(),
    {
        if elapsed.secs > self.secs || (elapsed.secs == self.secs && elapsed.nanos >= self.nanos) {
            None
        } else if elapsed.nanos <= self.nanos {
            Some(Duration { secs: self.secs - elapsed.secs, nanos: self.nanos - elapsed.nanos })
        } else {
            Some(
                Duration {
                    secs: self.secs - elapsed.secs - 1,
                    nanos: NANOS_PER_SEC - elapsed.nanos + self.nanos,
                },
            )
        }
    }
}

} // verus!
