use chores::status::{derive_status, ApiStatus, Status, UnknownStatus};

#[test]
fn status_words_are_read() {
    assert_eq!(Status::from_str("assigned"), Ok(Status::Assigned));
    assert_eq!(Status::from_str("completed"), Ok(Status::Completed));
    assert_eq!(Status::from_str("missed"), Ok(Status::Missed));
}

#[test]
fn other_words_are_no_status() {
    assert_eq!(Status::from_str("Assigned"), Err(UnknownStatus));
    assert_eq!(Status::from_str(""), Err(UnknownStatus));
    assert_eq!(Status::from_str("missed "), Err(UnknownStatus));
    assert_eq!(Status::from_str("overdue"), Err(UnknownStatus));
    assert_eq!(Status::from_str("upcoming"), Err(UnknownStatus));
}

#[test]
fn status_words_round_trip() {
    for status in [Status::Assigned, Status::Completed, Status::Missed] {
        assert_eq!(Status::from_str(status.as_str()), Ok(status));
    }
    assert_eq!(Status::Assigned.as_str(), "assigned");
    assert_eq!(Status::Completed.as_str(), "completed");
    assert_eq!(Status::Missed.as_str(), "missed");
}

#[test]
fn display_status_words() {
    assert_eq!(ApiStatus::Upcoming.as_str(), "upcoming");
    assert_eq!(ApiStatus::Assigned.as_str(), "assigned");
    assert_eq!(ApiStatus::Overdue.as_str(), "overdue");
    assert_eq!(ApiStatus::Completed.as_str(), "completed");
    assert_eq!(ApiStatus::Missed.as_str(), "missed");
}

#[test]
fn assigned_before_due_is_upcoming() {
    assert_eq!(derive_status(Status::Assigned, 100, 200, 50), Some(ApiStatus::Upcoming));
    assert_eq!(derive_status(Status::Assigned, 100, 200, 99), Some(ApiStatus::Upcoming));
}

#[test]
fn assigned_between_due_and_grace_end_is_assigned() {
    assert_eq!(derive_status(Status::Assigned, 100, 200, 100), Some(ApiStatus::Assigned));
    assert_eq!(derive_status(Status::Assigned, 100, 200, 150), Some(ApiStatus::Assigned));
    assert_eq!(derive_status(Status::Assigned, 100, 200, 200), Some(ApiStatus::Assigned));
}

#[test]
fn assigned_after_grace_end_is_overdue() {
    assert_eq!(derive_status(Status::Assigned, 100, 200, 201), Some(ApiStatus::Overdue));
    assert_eq!(derive_status(Status::Assigned, 100, 200, i64::MAX), Some(ApiStatus::Overdue));
}

#[test]
fn assigned_upcoming_and_overdue_is_flagged() {
    // Only a grace period that ends before the due time makes this possible.
    assert_eq!(derive_status(Status::Assigned, 200, 100, 150), None);
}

#[test]
fn completed_stays_completed_whatever_the_time() {
    assert_eq!(derive_status(Status::Completed, 100, 200, 50), Some(ApiStatus::Completed));
    assert_eq!(derive_status(Status::Completed, 100, 200, 150), Some(ApiStatus::Completed));
    assert_eq!(derive_status(Status::Completed, 100, 200, 250), Some(ApiStatus::Completed));
    assert_eq!(derive_status(Status::Completed, 200, 100, 150), Some(ApiStatus::Completed));
}

#[test]
fn missed_stays_missed_whatever_the_time() {
    assert_eq!(derive_status(Status::Missed, 100, 200, 50), Some(ApiStatus::Missed));
    assert_eq!(derive_status(Status::Missed, 100, 200, 150), Some(ApiStatus::Missed));
    assert_eq!(derive_status(Status::Missed, 100, 200, 250), Some(ApiStatus::Missed));
    assert_eq!(derive_status(Status::Missed, 200, 100, 150), Some(ApiStatus::Missed));
}
