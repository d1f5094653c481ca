use crate::models::common::DateTimeString;
use vstd::prelude::*;

verus! {

/// What holds of every moment that the clock shows: it is taken in UTC,
/// does not lie before 1970, and its seconds stay under 2 to the 48th.
pub open spec fn clock_reading(now: DateTimeString) -> bool {
    now.offset_seconds == 0 && 0 <= now.seconds < 0x1_0000_0000_0000
}

/// `chrono::Utc::now`, taken apart by `timestamp` and
/// `timestamp_subsec_nanos`: the present moment in UTC. The contract claims
/// the zone and a range. `Utc::now` counts the seconds from 1970 on and
/// builds the moment by `DateTime::from_timestamp`, which takes no second
/// whose day does not fit in 32 bits; so the seconds are not negative and
/// stay under 2 to the 48th.
#[verifier::external_body]
pub(crate) fn utc_now() -> (now: DateTimeString)
    ensures
        now.offset_seconds == 0,
        0 <= now.seconds < 0x1_0000_0000_0000,
{
    let now = chrono::Utc::now();
    DateTimeString {
        seconds: now.timestamp(),
        nanos: now.timestamp_subsec_nanos(),
        offset_seconds: 0,
    }
}

} // verus!
