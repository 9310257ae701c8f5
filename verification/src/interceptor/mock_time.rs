//! A clock for tests: it tells the time it was set to, and moves forward
//! only when told to.
//!
//! Times are counted from the Unix epoch in whole seconds (a signed 64-bit
//! count) and nanoseconds, as system times are on Unix; spans of time in
//! whole seconds (an unsigned 64-bit count) and nanoseconds.
use vstd::prelude::*;

verus! {

/// The number of nanoseconds in a second.
pub const NANOS_PER_SEC: u32 = 1_000_000_000;

/// The latest representable time, in nanoseconds from the epoch.
pub open spec fn max_time_nanos() -> int {
    i64::MAX as int * NANOS_PER_SEC as int + (NANOS_PER_SEC as int - 1)
}

/// A point in time: `secs` whole seconds and `nanos` nanoseconds after the
/// Unix epoch (a negative `secs` lies before it).
#[derive(Debug, Clone, Copy, PartialEq, Eq, Structural)]
pub struct Timestamp {
    secs: i64,
    nanos: u32,
}

/// A span of time: `secs` whole seconds and `nanos` nanoseconds.
#[derive(Debug, Clone, Copy, PartialEq, Eq, Structural)]
pub struct TimeSpan {
    secs: u64,
    nanos: u32,
}

impl View for Timestamp {
    type V = int;

    /// The time as nanoseconds from the epoch.
    closed spec fn view(&self) -> int {
        self.secs as int * NANOS_PER_SEC as int + self.nanos as int
    }
}

impl View for TimeSpan {
    type V = int;

    /// The span in nanoseconds.
    closed spec fn view(&self) -> int {
        self.secs as int * NANOS_PER_SEC as int + self.nanos as int
    }
}

impl Timestamp {
    /// The nanoseconds stay below a second.
    #[verifier::type_invariant]
    spec fn wf(self) -> bool {
        self.nanos < NANOS_PER_SEC
    }

    /// The Unix epoch, 1970-01-01 00:00:00 UTC.
    pub fn unix_epoch() -> (r: Timestamp)
        ensures
            r@ == 0,
    {
        Timestamp { secs: 0, nanos: 0 }
    }

    /// The time `secs` seconds and `nanos` nanoseconds after the epoch.
    pub fn from_unix(secs: i64, nanos: u32) -> (r: Timestamp)
        requires
            nanos < NANOS_PER_SEC,
        ensures
            r@ == secs as int * NANOS_PER_SEC as int + nanos as int,
            r.spec_secs() == secs,
            r.spec_subsec_nanos() == nanos,
    {
        Timestamp { secs, nanos }
    }

    /// The whole seconds from the epoch.
    pub closed spec fn spec_secs(&self) -> i64 {
        self.secs
    }

    /// The nanoseconds past the whole seconds.
    pub closed spec fn spec_subsec_nanos(&self) -> u32 {
        self.nanos
    }

    /// The whole seconds from the epoch (rounded down).
    pub fn unix_secs(&self) -> (r: i64)
        ensures
            r == self.spec_secs(),
    {
        self.secs
    }

    /// The nanoseconds past the whole seconds.
    pub fn subsec_nanos(&self) -> (r: u32)
        ensures
            r == self.spec_subsec_nanos(),
            r < NANOS_PER_SEC,
    {
        proof {
            use_type_invariant(self);
        }
        self.nanos
    }

    /// The time `d` after this one, or `None` where that time lies beyond
    /// the latest representable time.
    pub fn checked_add(&self, d: TimeSpan) -> (r: Option<Timestamp>)
        ensures
            match r {
                Some(t) => self@ + d@ <= max_time_nanos() && t@ == self@ + d@,
                None => self@ + d@ > max_time_nanos(),
            },
    {
        proof {
            use_type_invariant(self);
            use_type_invariant(&d);
        }
        let nanos_sum: u32 = self.nanos + d.nanos;
        let carry: i128 = if nanos_sum >= NANOS_PER_SEC { 1 } else { 0 };
        let nanos: u32 = if nanos_sum >= NANOS_PER_SEC { nanos_sum - NANOS_PER_SEC } else { nanos_sum };
        let secs_sum: i128 = self.secs as i128 + d.secs as i128 + carry;
        let ghost total: int = self@ + d@;
        assert(total == secs_sum * 1_000_000_000 + nanos) by (nonlinear_arith)
            requires
                total == self.secs * 1_000_000_000 + self.nanos + d.secs * 1_000_000_000
                    + d.nanos,
                nanos_sum == self.nanos + d.nanos,
                secs_sum == self.secs + d.secs + carry,
                nanos_sum >= 1_000_000_000 ==> carry == 1 && nanos == nanos_sum - 1_000_000_000,
                nanos_sum < 1_000_000_000 ==> carry == 0 && nanos == nanos_sum,
        ;
        if secs_sum <= i64::MAX as i128 {
            let t = Timestamp { secs: secs_sum as i64, nanos };
            assert(t@ == total);
            Some(t)
        } else {
            assert(total > max_time_nanos()) by (nonlinear_arith)
                requires
                    total == secs_sum * 1_000_000_000 + nanos,
                    secs_sum > 0x7fff_ffff_ffff_ffff,
                    nanos >= 0,
            ;
            None
        }
    }
}

impl TimeSpan {
    /// The nanoseconds stay below a second.
    #[verifier::type_invariant]
    spec fn wf(self) -> bool {
        self.nanos < NANOS_PER_SEC
    }

    /// A span of `secs` seconds and `nanos` nanoseconds.
    pub fn new(secs: u64, nanos: u32) -> (r: TimeSpan)
        requires
            nanos < NANOS_PER_SEC,
        ensures
            r@ == secs as int * NANOS_PER_SEC as int + nanos as int,
    {
        TimeSpan { secs, nanos }
    }

    /// A span of `secs` whole seconds.
    pub fn from_secs(secs: u64) -> (r: TimeSpan)
        ensures
            r@ == secs as int * NANOS_PER_SEC as int,
    {
        TimeSpan { secs, nanos: 0 }
    }

    /// The longest span.
    pub fn max_span() -> (r: TimeSpan)
        ensures
            r@ == u64::MAX as int * NANOS_PER_SEC as int + (NANOS_PER_SEC as int - 1),
    {
        TimeSpan { secs: u64::MAX, nanos: NANOS_PER_SEC - 1 }
    }
}

/// A clock for tests.
pub struct MockTime {
    cur_now: Timestamp,
}

impl Default for MockTime {
    /// A clock set to the Unix epoch.
    fn default() -> (r: MockTime)
        ensures
            r.spec_now()@ == 0,
    {
        MockTime { cur_now: Timestamp::unix_epoch() }
    }
}

impl MockTime {
    /// The time the clock is set to.
    pub closed spec fn spec_now(&self) -> Timestamp {
        self.cur_now
    }

    /// Sets the clock to `now`.
    pub fn set_now(&mut self, now: Timestamp)
        ensures
            final(self).spec_now() == now,
    {
        self.cur_now = now;
    }

    /// The time the clock is set to.
    pub fn now(&self) -> (r: Timestamp)
        ensures
            r == self.spec_now(),
    {
        self.cur_now
    }

    /// Moves the clock forward by `d`; where the later time cannot be
    /// represented, the clock stays where it was.
    pub fn advance(&mut self, d: TimeSpan)
        ensures
            final(self).spec_now()@ == if old(self).spec_now()@ + d@ <= max_time_nanos() {
                old(self).spec_now()@ + d@
            } else {
                old(self).spec_now()@
            },
            old(self).spec_now()@ + d@ > max_time_nanos() ==> final(self).spec_now() == old(
                self,
            ).spec_now(),
    {
        match self.cur_now.checked_add(d) {
            Some(t) => self.cur_now = t,
            None => {},
        }
    }
}

} // verus!
