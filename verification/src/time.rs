use vstd::prelude::*;

verus! {

/// A non-negative time span held as whole seconds plus a sub-second
/// remainder in nanoseconds.
#[derive(Clone, Copy, PartialEq, Eq, Structural, Debug)]
pub struct TimeSpan {
    pub secs: u64,
    pub nanos: u32,
}

pub const NANOS_PER_SEC: u32 = 1_000_000_000;

impl TimeSpan {
    /// The sub-second remainder never reaches one full second.
    pub open spec fn wf(self) -> bool {
        self.nanos < NANOS_PER_SEC
    }

    /// The whole span in nanoseconds.
    pub open spec fn total_nanos(self) -> int {
        self.secs * 1_000_000_000 + self.nanos
    }

    /// The span in whole milliseconds, rounded down.
    pub open spec fn millis(self) -> int {
        self.secs * 1000 + self.nanos / 1_000_000
    }

    pub fn zero() -> (r: TimeSpan)
        ensures
            r == (TimeSpan { secs: 0, nanos: 0 }),
            r.wf(),
            r.millis() == 0,
    {
        TimeSpan { secs: 0, nanos: 0 }
    }

    pub fn new(secs: u64, nanos: u32) -> (r: TimeSpan)
        requires
            nanos < NANOS_PER_SEC,
        ensures
            r == (TimeSpan { secs, nanos }),
            r.wf(),
    {
        TimeSpan { secs, nanos }
    }

    /// Adds two spans exactly while the sum of seconds fits in a `u64`,
    /// and saturates at the largest representable span otherwise.
    pub fn add(self, other: TimeSpan) -> (r: TimeSpan)
        requires
            self.wf(),
            other.wf(),
        ensures
            r.wf(),
            self.total_nanos() + other.total_nanos()
                <= u64::MAX * 1_000_000_000 + (NANOS_PER_SEC - 1)
                ==> r.total_nanos() == self.total_nanos() + other.total_nanos(),
            self.total_nanos() + other.total_nanos()
                > u64::MAX * 1_000_000_000 + (NANOS_PER_SEC - 1)
                ==> r == (TimeSpan { secs: u64::MAX, nanos: 999_999_999 }),
    {
        let nanos_sum: u64 = self.nanos as u64 + other.nanos as u64;
        let carry: u64 = nanos_sum / (NANOS_PER_SEC as u64);
        let nanos: u32 = (nanos_sum % (NANOS_PER_SEC as u64)) as u32;
        proof {
            assert(nanos_sum == carry * 1_000_000_000 + nanos);
            assert(self.total_nanos() + other.total_nanos()
                == (self.secs + other.secs + carry) * 1_000_000_000 + nanos);
        }
        if self.secs <= u64::MAX - carry && other.secs <= u64::MAX - carry - self.secs {
            let secs: u64 = self.secs + other.secs + carry;
            TimeSpan { secs, nanos }
        } else {
            proof {
                assert(self.secs + other.secs + carry >= u64::MAX + 1);
                assert((self.secs + other.secs + carry) * 1_000_000_000
                    >= (u64::MAX + 1) * 1_000_000_000);
            }
            TimeSpan { secs: u64::MAX, nanos: NANOS_PER_SEC - 1 }
        }
    }
}

/// Two well-formed spans carrying the same total are the same span.
pub proof fn lemma_span_unique(a: TimeSpan, b: TimeSpan)
    requires
        a.wf(),
        b.wf(),
        a.total_nanos() == b.total_nanos(),
    ensures
        a == b,
{
    if a.secs != b.secs {
        if a.secs > b.secs {
            assert(a.secs * 1_000_000_000 >= (b.secs + 1) * 1_000_000_000);
        } else {
            assert(b.secs * 1_000_000_000 >= (a.secs + 1) * 1_000_000_000);
        }
    }
}

/// `v` held down to the largest value a `u64` can carry.
pub open spec fn clamp_u64(v: int) -> int {
    if v <= u64::MAX {
        v
    } else {
        u64::MAX as int
    }
}

/// Converts a time span to whole milliseconds, saturating at the
/// largest value a `u64` can carry.
pub fn to_millis(span: TimeSpan) -> (r: u64)
    requires
        span.wf(),
    ensures
        r == clamp_u64(span.millis()),
{
    let frac: u64 = (span.nanos / 1_000_000) as u64;
    if span.secs <= (u64::MAX - frac) / 1000 {
        proof {
            assert(span.secs * 1000 <= u64::MAX - frac) by (nonlinear_arith)
                requires span.secs <= (u64::MAX - frac) / 1000;
        }
        span.secs * 1000 + frac
    } else {
        proof {
            assert(span.secs * 1000 > u64::MAX - frac) by (nonlinear_arith)
                requires span.secs > (u64::MAX - frac) / 1000;
        }
        u64::MAX
    }
}

} // verus!
