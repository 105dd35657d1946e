//! Instants and the whole days between them.

use vstd::prelude::*;

verus! {

/// An instant, counted from the Unix epoch: whole seconds, which may be
/// negative, and nanoseconds on top of them.
#[derive(Clone, Copy, Debug, PartialEq, Eq, Structural)]
pub struct Timestamp {
    pub secs: i64,
    pub nanos: u32,
}

impl View for Timestamp {
    type V = int;

    /// Nanoseconds since the Unix epoch.
    open spec fn view(&self) -> int {
        self.secs * 1_000_000_000 + self.nanos
    }
}

/// The instant against which every identity of one run is measured. It lies
/// in the range an OpenPGP timestamp has: its whole seconds since the Unix
/// epoch fit 32 bits.
#[derive(Clone, Copy, Debug, PartialEq, Eq, Structural)]
pub struct ReferenceTime {
    pub secs: u32,
    pub nanos: u32,
}

impl View for ReferenceTime {
    type V = int;

    /// Nanoseconds since the Unix epoch.
    open spec fn view(&self) -> int {
        self.secs * 1_000_000_000 + self.nanos
    }
}

/// The whole days from `earlier` to `later`, both in nanoseconds; a day has
/// 86 400 seconds. A part of a day is dropped, towards zero: the count is
/// negative where `later` lies a day or more before `earlier`, and zero
/// where the two are less than a day apart, whichever comes first.
pub open spec fn whole_days(later: int, earlier: int) -> int {
    if later >= earlier {
        (later - earlier) / 86_400_000_000_000
    } else {
        -((earlier - later) / 86_400_000_000_000)
    }
}

impl ReferenceTime {
    /// The reference time `secs` seconds and `nanos` nanoseconds after the
    /// Unix epoch; none where the seconds do not fit an OpenPGP timestamp.
    pub fn from_unix(secs: i64, nanos: u32) -> (at: Option<ReferenceTime>)
        ensures
            at is Some <==> 0 <= secs <= u32::MAX,
            at matches Some(at) ==> at.secs == secs && at.nanos == nanos,
    {
        if 0 <= secs && secs <= 0xffff_ffff {
            Some(ReferenceTime { secs: secs as u32, nanos })
        } else {
            None
        }
    }
}

/// The whole days left at `now` until `expiry`; negative once `expiry` lies
/// a day or more in the past.
pub fn whole_days_until(expiry: &Timestamp, now: &ReferenceTime) -> (days: i64)
    ensures
        days == whole_days(expiry@, now@),
{
    let later: i128 = (expiry.secs as i128) * 1_000_000_000 + (expiry.nanos as i128);
    let earlier: i128 = (now.secs as i128) * 1_000_000_000 + (now.nanos as i128);
    if later >= earlier {
        let span: u128 = (later - earlier) as u128;
        (span / 86_400_000_000_000) as i64
    } else {
        let span: u128 = (earlier - later) as u128;
        let days: i64 = (span / 86_400_000_000_000) as i64;
        -days
    }
}

} // verus!
