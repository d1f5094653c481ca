use vstd::prelude::*;

verus! {

/// A moment in time with the offset of the zone it was taken in: whole
/// seconds since the beginning of 1970 in UTC, the fraction of the second in
/// nanoseconds, and the zone's offset from UTC in seconds.
#[derive(Clone, Copy, Debug, PartialEq, Eq, Hash, Structural)]
pub struct DateTimeString {
    pub seconds: i64,
    pub nanos: u32,
    pub offset_seconds: i32,
}

impl DateTimeString {
    /// The moment `seconds` after the beginning of 1970, in UTC.
    pub fn from_unix_seconds(seconds: i64) -> (moment: DateTimeString)
        ensures
            moment == (DateTimeString { seconds, nanos: 0, offset_seconds: 0 }),
    {
        DateTimeString { seconds, nanos: 0, offset_seconds: 0 }
    }
}

} // verus!
