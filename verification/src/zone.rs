//! Timestamps and the fixed offset from UTC at which recurrences are read.

use vstd::prelude::*;

verus! {

/// Earliest supported timestamp: the first second of year 0, in epoch seconds.
pub const MIN_TIMESTAMP: i64 = -62_167_219_200;

/// Latest supported timestamp: the last second of year 9999, in epoch seconds.
pub const MAX_TIMESTAMP: i64 = 253_402_300_799;

/// Seconds in a day.
pub const DAY_SECS: i64 = 86_400;

/// Whether recurrences can be expanded from this timestamp.
pub open spec fn timestamp_in_range(timestamp: int) -> bool {
    MIN_TIMESTAMP <= timestamp <= MAX_TIMESTAMP
}

/// Whether an offset from UTC, in seconds, is less than a day either way.
pub open spec fn offset_in_range(secs: int) -> bool {
    -DAY_SECS < secs < DAY_SECS
}

/// A fixed offset from UTC, east positive, of less than a day.
#[derive(Clone, Copy, Debug)]
pub struct UtcOffset {
    secs: i32,
}

impl UtcOffset {
    #[verifier::type_invariant]
    spec fn in_range(self) -> bool {
        offset_in_range(self.secs as int)
    }

    /// The offset in seconds, east of UTC positive.
    pub closed spec fn spec_secs(self) -> int {
        self.secs as int
    }

    /// An offset of `secs` seconds east of UTC; `None` unless it is less than
    /// a day either way.
    pub fn new(secs: i32) -> (offset: Option<UtcOffset>)
        ensures
            offset.is_some() == offset_in_range(secs as int),
            offset matches Some(o) ==> o.spec_secs() == secs,
    {
        if -86_400 < secs && secs < 86_400 {
            Some(UtcOffset { secs })
        } else {
            None
        }
    }

    /// UTC itself.
    pub fn utc() -> (offset: UtcOffset)
        ensures
            offset.spec_secs() == 0,
    {
        UtcOffset { secs: 0 }
    }

    /// The offset in seconds, east of UTC positive.
    pub fn secs(&self) -> (secs: i32)
        ensures
            secs == self.spec_secs(),
            offset_in_range(secs as int),
    {
        proof {
            use_type_invariant(self);
        }
        self.secs
    }
}

} // verus!
