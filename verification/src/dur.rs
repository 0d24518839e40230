//! A plain-value span of time, mirroring the seconds/nanoseconds split that
//! wire-level deadline arithmetic works in.

use vstd::prelude::*;

verus! {

/// A span of time: whole seconds plus a sub-second nanosecond remainder.
#[derive(Clone, Copy, Debug, PartialEq, Eq, Structural)]
pub struct Dur {
    pub secs: u64,
    pub nanos: u32,
}

impl Dur {
    /// Representation invariant: the nanosecond part never reaches a whole
    /// second.
    pub open spec fn wf(&self) -> bool {
        self.nanos < 1_000_000_000
    }

    /// Total length in nanoseconds.
    pub open spec fn as_nanos(&self) -> int {
        self.secs * 1_000_000_000 + self.nanos
    }

    pub fn from_secs(secs: u64) -> (r: Dur)
        ensures
            r.wf(),
            r.as_nanos() == secs * 1_000_000_000,
    {
        Dur { secs, nanos: 0 }
    }

    pub fn from_millis(millis: u64) -> (r: Dur)
        ensures
            r.wf(),
            r.as_nanos() == millis * 1_000_000,
    {
        Dur { secs: millis / 1000, nanos: ((millis % 1000) as u32) * 1_000_000 }
    }

    pub fn from_micros(micros: u64) -> (r: Dur)
        ensures
            r.wf(),
            r.as_nanos() == micros * 1_000,
    {
        Dur { secs: micros / 1_000_000, nanos: ((micros % 1_000_000) as u32) * 1_000 }
    }

    pub fn from_nanos(nanos: u64) -> (r: Dur)
        ensures
            r.wf(),
            r.as_nanos() == nanos,
    {
        Dur { secs: nanos / 1_000_000_000, nanos: (nanos % 1_000_000_000) as u32 }
    }
}

/// The shorter of two spans, by total length.
pub open spec fn dur_min_spec(a: Dur, b: Dur) -> Dur {
    if a.as_nanos() <= b.as_nanos() {
        a
    } else {
        b
    }
}

pub fn dur_min(a: Dur, b: Dur) -> (r: Dur)
    requires
        a.wf(),
        b.wf(),
    ensures
        r == dur_min_spec(a, b),
{
    if a.secs < b.secs {
        a
    } else if b.secs < a.secs {
        b
    } else if a.nanos <= b.nanos {
        a
    } else {
        b
    }
}

} // verus!
