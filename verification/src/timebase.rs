//! Conversion between frame-count timestamps and whole seconds.

use vstd::prelude::*;

verus! {

/// Whole seconds elapsed at timestamp `ts` under the time base
/// `numer / denom`: the integer quotient of `ts * numer` by `denom`, wrapped
/// to 64 bits.
pub open spec fn whole_seconds(numer: u32, denom: u32, ts: u64) -> u64 {
    (((ts as int * numer as int) / (denom as int)) % 0x1_0000_0000_0000_0000) as u64
}

/// Timestamp that `symphonia`'s `TimeBase::calc_timestamp` reports for a time
/// of `seconds` whole seconds (no fractional part) under `numer / denom`.
pub uninterp spec fn timestamp_at(numer: u32, denom: u32, seconds: u64) -> u64;

/// Timestamp reached after `seconds` whole seconds under the time base
/// `numer / denom`. Where one tick is a whole fraction of a second, it is
/// `seconds * denom`, wrapped to 64 bits.
pub open spec fn ticks_after(numer: u32, denom: u32, seconds: u64) -> u64 {
    if numer == 1 {
        ((seconds as int * denom as int) % 0x1_0000_0000_0000_0000) as u64
    } else {
        timestamp_at(numer, denom, seconds)
    }
}

/// Calls `symphonia::core::units::TimeBase::calc_time` and keeps the `seconds`
/// field of the result. The outside code divides `ts * numer` by `denom`
/// without rounding up, and lets the seconds wrap at 64 bits. Both parts of
/// the time base must be non-zero, otherwise the outside code panics.
#[verifier::external_body]
fn calc_whole_seconds(numer: u32, denom: u32, ts: u64) -> (seconds: u64)
    requires
        numer > 0,
        denom > 0,
    ensures
        seconds == whole_seconds(numer, denom, ts),
{
    symphonia::core::units::TimeBase::new(numer, denom).calc_time(ts).seconds
}

/// Calls `symphonia::core::units::TimeBase::calc_timestamp` on a time made of
/// `seconds` whole seconds. With a numerator of 1 the outside code multiplies
/// the seconds by the denominator and lets the product wrap at 64 bits; for
/// other numerators the contract only gives the result its name, it being a
/// function of the three arguments. Both parts of the time base must be
/// non-zero, otherwise the outside code panics.
#[verifier::external_body]
fn calc_timestamp(numer: u32, denom: u32, seconds: u64) -> (ts: u64)
    requires
        numer > 0,
        denom > 0,
    ensures
        ts == (if numer == 1 {
            ((seconds as int * denom as int) % 0x1_0000_0000_0000_0000) as u64
        } else {
            timestamp_at(numer, denom, seconds)
        }),
{
    symphonia::core::units::TimeBase::new(numer, denom).calc_timestamp(
        symphonia::core::units::Time::from(seconds),
    )
}

/// The length in seconds of one timestamp tick, as the ratio `numer / denom`.
#[derive(Clone, Copy, Debug)]
pub struct TimeBase {
    numer: u32,
    denom: u32,
}

impl TimeBase {
    /// Neither part of the ratio is zero.
    #[verifier::type_invariant]
    closed spec fn wf(&self) -> bool {
        self.numer > 0 && self.denom > 0
    }

    pub closed spec fn spec_numer(&self) -> u32 {
        self.numer
    }

    pub closed spec fn spec_denom(&self) -> u32 {
        self.denom
    }

    /// Whole seconds elapsed at timestamp `ts`.
    pub open spec fn seconds_at(&self, ts: u64) -> u64 {
        whole_seconds(self.spec_numer(), self.spec_denom(), ts)
    }

    /// Timestamp reached after `seconds` whole seconds.
    pub open spec fn ticks_at(&self, seconds: u64) -> u64 {
        ticks_after(self.spec_numer(), self.spec_denom(), seconds)
    }

    /// Neither part of the ratio is zero. This holds of every time base that
    /// `new` has built.
    pub open spec fn nonzero(&self) -> bool {
        self.spec_numer() > 0 && self.spec_denom() > 0
    }

    /// Builds the time base `numer / denom`; a ratio with a zero part is refused.
    pub fn new(numer: u32, denom: u32) -> (tb: Option<TimeBase>)
        ensures
            tb.is_some() <==> (numer > 0 && denom > 0),
            tb.is_some() ==> tb.unwrap().spec_numer() == numer && tb.unwrap().spec_denom()
                == denom && tb.unwrap().nonzero(),
    {
        if numer == 0 || denom == 0 {
            None
        } else {
            Some(TimeBase { numer, denom })
        }
    }

    pub fn numer(&self) -> (n: u32)
        ensures
            n == self.spec_numer(),
            n > 0,
    {
        proof {
            use_type_invariant(self);
        }
        self.numer
    }

    pub fn denom(&self) -> (d: u32)
        ensures
            d == self.spec_denom(),
            d > 0,
    {
        proof {
            use_type_invariant(self);
        }
        self.denom
    }

    /// Whole seconds elapsed at timestamp `ts`.
    pub fn calc_seconds(&self, ts: u64) -> (seconds: u64)
        ensures
            seconds == self.seconds_at(ts),
    {
        proof {
            use_type_invariant(self);
        }
        calc_whole_seconds(self.numer, self.denom, ts)
    }

    /// Timestamp reached after `seconds` whole seconds.
    pub fn calc_ticks(&self, seconds: u64) -> (ts: u64)
        ensures
            ts == self.ticks_at(seconds),
    {
        proof {
            use_type_invariant(self);
        }
        calc_timestamp(self.numer, self.denom, seconds)
    }
}

} // verus!
