//! Host-clock arithmetic.
//!
//! The host clock counts in machine-dependent ticks; only the native API
//! can read the clock or convert between ticks and nanoseconds.  The
//! arithmetic around those calls is plain integer work and lives here: tick
//! differences and offsets, and the split and join between a nanosecond
//! total and a seconds-plus-subseconds pair.

use vstd::prelude::*;

verus! {

/// Nanoseconds in one second.
pub const NSEC_PER_SEC: u64 = 1_000_000_000;

/// A point on the host clock, counted in the clock's own ticks.
#[derive(Clone, Copy, PartialEq, Eq, Structural, PartialOrd, Ord, Debug)]
pub struct HostTime {
    t: u64,
}

impl HostTime {
    /// The stored tick count.
    pub closed spec fn ticks_spec(self) -> u64 {
        self.t
    }

    /// The time at the given tick count.
    pub fn from_ticks(t: u64) -> (r: HostTime)
        ensures
            r.ticks_spec() == t,
    {
        HostTime { t }
    }

    /// The stored tick count.
    pub fn ticks(&self) -> (t: u64)
        ensures
            t == self.ticks_spec(),
    {
        self.t
    }

    /// The ticks that passed between `earlier` and `self`.  An earlier
    /// time that is in fact later breaks the caller's contract, so the
    /// subtraction never wraps.
    pub fn ticks_since(&self, earlier: &HostTime) -> (d: u64)
        requires
            earlier.ticks_spec() <= self.ticks_spec(),
        ensures
            d == self.ticks_spec() - earlier.ticks_spec(),
    {
        self.t - earlier.t
    }

    /// The time `dt` ticks after `self`.  The sum must fit the clock.
    pub fn add_ticks(&self, dt: u64) -> (r: HostTime)
        requires
            self.ticks_spec() + dt <= u64::MAX,
        ensures
            r.ticks_spec() == self.ticks_spec() + dt,
    {
        HostTime { t: self.t + dt }
    }

    /// The time `dt` ticks before `self`.  The clock cannot go below
    /// zero.
    pub fn sub_ticks(&self, dt: u64) -> (r: HostTime)
        requires
            dt <= self.ticks_spec(),
        ensures
            r.ticks_spec() == self.ticks_spec() - dt,
    {
        HostTime { t: self.t - dt }
    }
}

/// Splits a nanosecond total into whole seconds and the nanoseconds left
/// over, the two fields of a duration.
pub fn split_nanos(nanos: u64) -> (r: (u64, u32))
    ensures
        r.0 == nanos / NSEC_PER_SEC,
        r.1 == nanos % NSEC_PER_SEC,
        r.0 * NSEC_PER_SEC + r.1 == nanos,
        r.1 < NSEC_PER_SEC,
{
    proof {
        vstd::arithmetic::div_mod::lemma_fundamental_div_mod(nanos as int, NSEC_PER_SEC as int);
    }
    (nanos / NSEC_PER_SEC, (nanos % NSEC_PER_SEC) as u32)
}

/// Joins a seconds-plus-subseconds duration into a nanosecond total, or
/// nothing exactly when the total cannot be counted in 64 bits.
pub fn join_nanos(secs: u64, subsec_nanos: u32) -> (r: Option<u64>)
    ensures
        r is Some <==> secs * NSEC_PER_SEC + subsec_nanos <= u64::MAX,
        match r {
            Some(n) => n == secs * NSEC_PER_SEC + subsec_nanos,
            None => true,
        },
{
    match secs.checked_mul(NSEC_PER_SEC) {
        Some(n) => n.checked_add(subsec_nanos as u64),
        None => None,
    }
}

/// Splitting the joined total gives the seconds and subseconds back,
/// whenever the subseconds are in range and the join fits.
pub proof fn lemma_nanos_round_trip(secs: u64, subsec_nanos: u32)
    requires
        subsec_nanos < NSEC_PER_SEC,
        secs * NSEC_PER_SEC + subsec_nanos <= u64::MAX,
    ensures
        (secs * NSEC_PER_SEC + subsec_nanos) / (NSEC_PER_SEC as int) == secs,
        (secs * NSEC_PER_SEC + subsec_nanos) % (NSEC_PER_SEC as int) == subsec_nanos,
{
    vstd::arithmetic::div_mod::lemma_fundamental_div_mod_converse(
        secs * NSEC_PER_SEC + subsec_nanos,
        NSEC_PER_SEC as int,
        secs as int,
        subsec_nanos as int,
    );
}

} // verus!
