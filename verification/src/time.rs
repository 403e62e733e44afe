//! Time instants and intervals.
//!
//! A time instant is a count of milliseconds since the Unix epoch.
//! An interval `[start, end)` is half-open; the degenerate interval with
//! `start == end` is an *instant* and stands for the single millisecond
//! `start`.

use vstd::prelude::*;

use crate::error::Error;

verus! {

/// A half-open time interval `[start, end)` in epoch milliseconds.
/// `start == end` denotes the instant `start`.
#[derive(Debug, Clone, Copy, PartialEq, Eq, Structural)]
pub struct TimeInterval {
    pub start: i64,
    pub end: i64,
}

impl TimeInterval {
    /// A well-formed interval never ends before it starts.
    pub open spec fn wf(self) -> bool {
        self.start <= self.end
    }

    pub open spec fn spec_start(self) -> i64 {
        self.start
    }

    pub open spec fn spec_end(self) -> i64 {
        self.end
    }

    /// The set of milliseconds covered: `[start, end)`, or `{start}` for
    /// an instant.
    pub open spec fn covers(self, t: int) -> bool {
        if self.start == self.end {
            t == self.start
        } else {
            self.start <= t < self.end
        }
    }

    /// Creates an interval, rejecting `end < start`.
    pub fn new(start: i64, end: i64) -> (r: Result<Self, Error>)
        ensures
            r is Ok <==> start <= end,
            r matches Ok(i) ==> i == (TimeInterval { start, end }),
            r matches Err(e) ==> e == (Error::InvalidTimeInterval { start, end }),
    {
        if start <= end {
            Ok(TimeInterval { start, end })
        } else {
            Err(Error::InvalidTimeInterval { start, end })
        }
    }

    /// Creates an interval from bounds known to be ordered.
    pub fn new_unchecked(start: i64, end: i64) -> (r: Self)
        requires
            start <= end,
        ensures
            r == (TimeInterval { start, end }),
    {
        TimeInterval { start, end }
    }

    /// The instant `time`, as the degenerate interval `[time, time]`.
    pub fn new_instant(time: i64) -> (r: Self)
        ensures
            r == (TimeInterval { start: time, end: time }),
    {
        TimeInterval { start: time, end: time }
    }

    pub fn start(&self) -> (r: i64)
        ensures
            r == self.start,
    {
        self.start
    }

    pub fn end(&self) -> (r: i64)
        ensures
            r == self.end,
    {
        self.end
    }

    /// Whether the two intervals share at least one millisecond.
    pub fn intersects(&self, other: &TimeInterval) -> (r: bool)
        requires
            self.wf(),
            other.wf(),
        ensures
            r == spec_time_intersects(*self, *other),
    {
        let r = if self.start == self.end {
            if other.start == other.end {
                self.start == other.start
            } else {
                other.start <= self.start && self.start < other.end
            }
        } else {
            if other.start == other.end {
                self.start <= other.start && other.start < self.end
            } else {
                self.start < other.end && other.start < self.end
            }
        };
        proof {
            if r {
                if self.start == self.end {
                    assert(self.covers(self.start as int) && other.covers(self.start as int));
                } else if other.start == other.end {
                    assert(self.covers(other.start as int) && other.covers(other.start as int));
                } else {
                    let t = if self.start >= other.start {
                        self.start as int
                    } else {
                        other.start as int
                    };
                    assert(self.covers(t) && other.covers(t));
                }
            }
        }
        r
    }
}

/// Whether two intervals share at least one millisecond.
pub open spec fn spec_time_intersects(a: TimeInterval, b: TimeInterval) -> bool {
    exists|t: int| a.covers(t) && b.covers(t)
}

} // verus!
