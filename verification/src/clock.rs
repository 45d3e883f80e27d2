//! The wall clock.

use vstd::prelude::*;

verus! {

/// Every time that the clock gives lies before this one.
pub const CLOCK_END: i64 = 0x1_0000_0000_0000;

/// A time that the clock can give: not before the Unix epoch, and before
/// [`CLOCK_END`].
pub open spec fn on_clock(now: i64) -> bool {
    0 <= now < CLOCK_END
}

/// Reads the clock through `chrono::Local::now` and returns
/// `DateTime::timestamp`: whole seconds since the Unix epoch. chrono takes
/// the seconds that the system clock has counted since the epoch and keeps
/// the day of a time in 32 bits, so a time that it returns is not negative
/// and lies before [`CLOCK_END`]. The call panics where the system clock
/// lies before the epoch or beyond the dates that chrono can hold; that is a
/// fault of the machine, which no caller can exclude. Nothing else is claimed
/// of the value: two readings may differ in either direction.
#[verifier::external_body]
pub(crate) fn now_timestamp() -> (now: i64)
    ensures
        on_clock(now),
{
    chrono::Local::now().timestamp()
}

} // verus!
