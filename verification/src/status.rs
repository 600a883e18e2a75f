//! Persisted lifecycle status, display status, and the read-time derivation
//! that turns one into the other.

use vstd::prelude::*;
use crate::text::str_eq;

verus! {

/// Lifecycle value persisted with each instance.
#[derive(Clone, Copy, Debug, PartialEq, Eq, Structural)]
pub enum Status {
    Assigned,
    Completed,
    Missed,
}

/// Status shown to readers: the persisted status refined by the current time.
#[derive(Clone, Copy, Debug, PartialEq, Eq, Structural)]
pub enum ApiStatus {
    Upcoming,
    Assigned,
    Overdue,
    Completed,
    Missed,
}

/// The error of reading a stored word that names no status.
#[derive(Clone, Copy, Debug, PartialEq, Eq, Structural)]
pub struct UnknownStatus;

/// The status that a stored word denotes, if it denotes one.
pub open spec fn spec_parse_status(word: Seq<char>) -> Option<Status> {
    if word == "assigned"@ {
        Some(Status::Assigned)
    } else if word == "completed"@ {
        Some(Status::Completed)
    } else if word == "missed"@ {
        Some(Status::Missed)
    } else {
        None
    }
}

/// The word under which a status is stored.
pub open spec fn spec_status_word(status: Status) -> Seq<char> {
    match status {
        Status::Assigned => "assigned"@,
        Status::Completed => "completed"@,
        Status::Missed => "missed"@,
    }
}

/// The word under which a display status is reported.
pub open spec fn spec_api_status_word(status: ApiStatus) -> Seq<char> {
    match status {
        ApiStatus::Upcoming => "upcoming"@,
        ApiStatus::Assigned => "assigned"@,
        ApiStatus::Overdue => "overdue"@,
        ApiStatus::Completed => "completed"@,
        ApiStatus::Missed => "missed"@,
    }
}

/// The display status of an instance at time `now`, or `None` where an
/// assigned instance is at once not yet due and past its grace period.
pub open spec fn spec_derive_status(
    status: Status,
    expected_completion_time: int,
    overdue_time: int,
    now: int,
) -> Option<ApiStatus> {
    let upcoming = now < expected_completion_time;
    let overdue = now > overdue_time;
    match status {
        Status::Completed => Some(ApiStatus::Completed),
        Status::Missed => Some(ApiStatus::Missed),
        Status::Assigned => if upcoming && overdue {
            None
        } else if upcoming {
            Some(ApiStatus::Upcoming)
        } else if overdue {
            Some(ApiStatus::Overdue)
        } else {
            Some(ApiStatus::Assigned)
        },
    }
}

impl Status {
    /// Reads a stored status word: one of the three lower-case status names,
    /// and an error for every other word.
    pub fn from_str(value: &str) -> (parsed: Result<Status, UnknownStatus>)
        ensures
            parsed.is_ok() == spec_parse_status(value@).is_some(),
            parsed matches Ok(status) ==> spec_parse_status(value@) == Some(status),
    {
        if str_eq(value, "assigned") {
            Ok(Status::Assigned)
        } else if str_eq(value, "completed") {
            Ok(Status::Completed)
        } else if str_eq(value, "missed") {
            Ok(Status::Missed)
        } else {
            Err(UnknownStatus)
        }
    }

    /// The word under which this status is stored.
    pub fn as_str(&self) -> (word: &'static str)
        ensures
            word@ == spec_status_word(*self),
    {
        match self {
            Status::Assigned => "assigned",
            Status::Completed => "completed",
            Status::Missed => "missed",
        }
    }
}

impl ApiStatus {
    /// The lower-case word under which this display status is reported.
    pub fn as_str(&self) -> (word: &'static str)
        ensures
            word@ == spec_api_status_word(*self),
    {
        match self {
            ApiStatus::Upcoming => "upcoming",
            ApiStatus::Assigned => "assigned",
            ApiStatus::Overdue => "overdue",
            ApiStatus::Completed => "completed",
            ApiStatus::Missed => "missed",
        }
    }
}

/// Derives the display status of an instance from its persisted status, its
/// two time bounds and the current time.
///
/// An assigned instance is `Upcoming` before it is due, `Overdue` once its
/// grace period has passed and `Assigned` in between; completed and missed
/// instances keep their status whatever the time. The one combination that
/// well-formed instances cannot reach, assigned and both not yet due and past
/// the grace period, yields `None` instead of a status.
pub fn derive_status(
    status: Status,
    expected_completion_time: i64,
    overdue_time: i64,
    now: i64,
) -> (display: Option<ApiStatus>)
    ensures
        display == spec_derive_status(
            status,
            expected_completion_time as int,
            overdue_time as int,
            now as int,
        ),
{
    let upcoming = now < expected_completion_time;
    let overdue = now > overdue_time;
    match status {
        Status::Completed => Some(ApiStatus::Completed),
        Status::Missed => Some(ApiStatus::Missed),
        Status::Assigned => {
            if upcoming && overdue {
                None
            } else if upcoming {
                Some(ApiStatus::Upcoming)
            } else if overdue {
                Some(ApiStatus::Overdue)
            } else {
                Some(ApiStatus::Assigned)
            }
        },
    }
}

/// Every stored status word reads back as the status it was written for.
pub proof fn law_status_word_round_trip(status: Status)
    ensures
        spec_parse_status(spec_status_word(status)) == Some(status),
{
    reveal_strlit("assigned");
    reveal_strlit("completed");
    reveal_strlit("missed");
    assert("completed"@.len() == 9);
    assert("missed"@.len() == 6);
}

/// The derivation table, row by row: for each persisted status and each
/// combination of "not yet due" and "past the grace period".
pub proof fn law_status_table(status: Status, expected: int, overdue: int, now: int)
    ensures
        status == Status::Completed ==> spec_derive_status(status, expected, overdue, now)
            == Some(ApiStatus::Completed),
        status == Status::Missed ==> spec_derive_status(status, expected, overdue, now) == Some(
            ApiStatus::Missed,
        ),
        status == Status::Assigned && now < expected && !(now > overdue) ==> spec_derive_status(
            status,
            expected,
            overdue,
            now,
        ) == Some(ApiStatus::Upcoming),
        status == Status::Assigned && !(now < expected) && !(now > overdue)
            ==> spec_derive_status(status, expected, overdue, now) == Some(ApiStatus::Assigned),
        status == Status::Assigned && !(now < expected) && now > overdue ==> spec_derive_status(
            status,
            expected,
            overdue,
            now,
        ) == Some(ApiStatus::Overdue),
        status == Status::Assigned && now < expected && now > overdue ==> spec_derive_status(
            status,
            expected,
            overdue,
            now,
        ) is None,
{
}

/// Where the grace period ends after the due time, every instance has a
/// display status: the flagged combination cannot occur.
pub proof fn law_status_defined_for_well_formed(
    status: Status,
    expected: int,
    overdue: int,
    now: int,
)
    requires
        overdue > expected,
    ensures
        spec_derive_status(status, expected, overdue, now) is Some,
{
}

} // verus!
