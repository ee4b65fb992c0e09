//! Instants and spans of time as whole nanoseconds, and the one read of the
//! system clock that the cache makes.

use std::time::UNIX_EPOCH;
use vstd::prelude::*;

verus! {

/// Nanoseconds in one second.
pub const NANOS_PER_SEC: u128 = 1_000_000_000;

/// A length of time in whole nanoseconds.
#[derive(Clone, Copy, Debug, PartialEq, Eq)]
pub struct Span {
    pub nanos: u128,
}

/// An instant on the wall clock: whole nanoseconds counted from the Unix
/// epoch, negative for an instant before it.
#[derive(Clone, Copy, Debug, PartialEq, Eq)]
pub struct Timestamp {
    pub nanos: i128,
}

/// The signed distance from the epoch that a clock reading stands for.
///
/// A reading is `Ok(n)` for a clock `n` nanoseconds past the epoch and
/// `Err(n)` for one `n` nanoseconds short of it. A distance that `i128`
/// cannot hold is taken as the nearest one it can.
pub open spec fn reading_nanos(reading: Result<u128, u128>) -> int {
    match reading {
        Ok(past) => if past <= i128::MAX {
            past as int
        } else {
            i128::MAX as int
        },
        Err(short) => if short <= i128::MAX {
            -(short as int)
        } else {
            i128::MIN as int
        },
    }
}

/// Reads the system clock: `std::time::SystemTime::elapsed`, asked of
/// `UNIX_EPOCH`, gives the distance between the epoch and the clock, here
/// handed on in nanoseconds: `Ok` for a clock at or past the epoch, `Err` for
/// one before it. Nothing is claimed of the number: the clock may stand
/// anywhere, and two reads may differ either way.
#[verifier::external_body]
fn read_wall_clock() -> (reading: Result<u128, u128>) {
    match UNIX_EPOCH.elapsed() {
        Ok(past) => Ok(past.as_nanos()),
        Err(short) => Err(short.duration().as_nanos()),
    }
}

impl Span {
    /// The span of `secs` seconds.
    pub fn from_secs(secs: u64) -> (span: Span)
        ensures
            span.nanos == secs * NANOS_PER_SEC,
    {
        let wide: u128 = secs as u128;
        Span { nanos: wide * NANOS_PER_SEC }
    }
}

impl Timestamp {
    /// The instant `secs` seconds after the epoch, or before it for a
    /// negative count.
    pub fn from_secs(secs: i64) -> (at: Timestamp)
        ensures
            at.nanos == secs * NANOS_PER_SEC,
    {
        let wide: i128 = secs as i128;
        Timestamp { nanos: wide * 1_000_000_000i128 }
    }

    /// The instant that a clock reading stands for.
    pub fn from_reading(reading: Result<u128, u128>) -> (at: Timestamp)
        ensures
            at.nanos == reading_nanos(reading),
    {
        let limit: u128 = i128::MAX as u128;
        match reading {
            Ok(past) => if past <= limit {
                Timestamp { nanos: past as i128 }
            } else {
                Timestamp { nanos: i128::MAX }
            },
            Err(short) => if short <= limit {
                Timestamp { nanos: -(short as i128) }
            } else {
                Timestamp { nanos: i128::MIN }
            },
        }
    }

    /// The instant at which the system clock stands now. The clock decides
    /// the result, so the contract says nothing of it.
    pub fn now() -> (at: Timestamp) {
        Timestamp::from_reading(read_wall_clock())
    }

    /// The time that has passed at `self` since `earlier`, or `None` when
    /// `earlier` is in fact the later of the two.
    pub fn elapsed_since(self, earlier: Timestamp) -> (elapsed: Option<Span>)
        ensures
            match elapsed {
                Some(span) => span.nanos == self.nanos - earlier.nanos,
                None => self.nanos < earlier.nanos,
            },
    {
        if self.nanos < earlier.nanos {
            None
        } else if earlier.nanos >= 0 || self.nanos < 0 {
            // Both on one side of the epoch: the difference fits in `i128`.
            let gap: i128 = self.nanos - earlier.nanos;
            Some(Span { nanos: gap as u128 })
        } else {
            // `earlier` before the epoch, `self` at or after it.
            let back: i128 = -(earlier.nanos + 1);
            let before: u128 = back as u128 + 1;
            Some(Span { nanos: self.nanos as u128 + before })
        }
    }
}

} // verus!
