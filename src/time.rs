use vstd::prelude::*;

verus! {

/// Nanoseconds in one second.
pub const NANOS_PER_SEC: u32 = 1_000_000_000;

/// Nanoseconds in one millisecond.
pub const NANOS_PER_MILLI: u32 = 1_000_000;

/// A span of time: whole seconds plus the nanoseconds below one second.
#[derive(Clone, Copy, Debug, PartialEq, Eq, Structural)]
pub struct Duration {
    pub secs: u64,
    pub nanos: u32,
}

/// The kernel's wait timeout: seconds and nanoseconds, both signed.
#[derive(Clone, Copy, Debug, PartialEq, Eq, Structural)]
pub struct TimeSpec {
    pub sec: i64,
    pub nsec: i64,
}

impl Duration {
    /// The nanosecond part lies below one second.
    pub open spec fn wf(self) -> bool {
        self.nanos < NANOS_PER_SEC
    }

    /// Whole milliseconds in this span (sub-millisecond rest dropped).
    pub open spec fn millis(self) -> int {
        (self.secs as int) * 1000 + (self.nanos as int) / (NANOS_PER_MILLI as int)
    }

    /// The span fits the kernel's signed second count.
    pub open spec fn fits_timespec(self) -> bool {
        self.secs <= i64::MAX
    }

    pub fn from_parts(secs: u64, nanos: u32) -> (r: Duration)
        requires
            nanos < NANOS_PER_SEC,
        ensures
            r == (Duration { secs, nanos }),
            r.wf(),
    {
        Duration { secs, nanos }
    }

    pub fn zero() -> (r: Duration)
        ensures
            r == (Duration { secs: 0, nanos: 0 }),
    {
        Duration { secs: 0, nanos: 0 }
    }

    pub fn from_millis(ms: u64) -> (r: Duration)
        ensures
            r.wf(),
            r.secs == ms / 1000,
            r.nanos == (ms % 1000) * 1_000_000,
            r.millis() == ms,
    {
        let secs: u64 = ms / 1000;
        let rest: u64 = ms % 1000;
        let nanos: u32 = (rest as u32) * NANOS_PER_MILLI;
        assert((rest * 1_000_000) / 1_000_000 == rest) by (nonlinear_arith);
        Duration { secs, nanos }
    }

    /// The span in whole milliseconds, as the kernel's signed data word.
    /// `None` when it does not fit, so the count never wraps.
    pub fn period_ms(&self) -> (r: Option<i64>)
        requires
            self.wf(),
        ensures
            self.millis() <= i64::MAX <==> r is Some,
            r matches Some(ms) ==> ms == self.millis(),
    {
        let whole: u64 = self.nanos as u64 / NANOS_PER_MILLI as u64;
        if self.secs > (i64::MAX as u64) / 1000 {
            assert(self.secs * 1000 > i64::MAX) by (nonlinear_arith)
                requires self.secs > (i64::MAX as u64) / 1000;
            return None;
        }
        let base: u64 = self.secs * 1000;
        if base > (i64::MAX as u64) - whole {
            None
        } else {
            Some((base + whole) as i64)
        }
    }
}

/// The timeout record for a span.
pub open spec fn timespec_of(d: Duration) -> TimeSpec {
    TimeSpec { sec: d.secs as i64, nsec: d.nanos as i64 }
}

/// Converts a span to the kernel's timeout record. A span whose seconds do
/// not fit the signed second count would turn negative, so it is refused.
pub fn duration_to_timespec(d: Duration) -> (r: TimeSpec)
    requires
        d.fits_timespec(),
    ensures
        r == timespec_of(d),
        r.sec == d.secs,
        r.nsec == d.nanos,
        r.sec >= 0,
        r.nsec >= 0,
{
    TimeSpec { sec: d.secs as i64, nsec: d.nanos as i64 }
}

} // verus!
