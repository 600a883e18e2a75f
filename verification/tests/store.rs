use chores::instance::ChoreInstance;
use chores::status::Status;
use chores::store::{outcome_of_update, CompletionOutcome, Store};

fn stored(title: &str, due: i64, overdue: i64, expires: i64, status: Status) -> ChoreInstance {
    ChoreInstance {
        title: title.to_string(),
        expected_completion_time: due,
        overdue_time: overdue,
        expiration_time: expires,
        status,
    }
}

fn statuses(store: &Store) -> Vec<Status> {
    store.rows().iter().map(|row| row.status).collect()
}

#[test]
fn new_store_is_empty() {
    let store = Store::new();
    assert_eq!(store.len(), 0);
    assert!(store.rows().is_empty());
    assert_eq!(store.watermark(), None);
}

#[test]
fn insert_adds_a_row() {
    let mut store = Store::new();
    assert!(store.insert_or_ignore(stored("dishes", 100, 130, 200, Status::Assigned)));
    assert_eq!(store.len(), 1);
    assert!(store.contains(&"dishes".to_string(), 100));
    assert!(!store.contains(&"dishes".to_string(), 101));
    assert!(!store.contains(&"laundry".to_string(), 100));
}

#[test]
fn insert_of_an_existing_key_is_ignored() {
    let mut store = Store::new();
    assert!(store.insert_or_ignore(stored("dishes", 100, 130, 200, Status::Completed)));
    assert!(!store.insert_or_ignore(stored("dishes", 100, 999, 999, Status::Assigned)));
    assert_eq!(store.len(), 1);
    let row = &store.rows()[0];
    assert_eq!(row.overdue_time, 130);
    assert_eq!(row.expiration_time, 200);
    assert_eq!(row.status, Status::Completed);
}

#[test]
fn same_title_at_another_time_and_same_time_under_another_title_are_new_rows() {
    let mut store = Store::new();
    assert!(store.insert_or_ignore(stored("dishes", 100, 130, 200, Status::Assigned)));
    assert!(store.insert_or_ignore(stored("dishes", 200, 230, 300, Status::Assigned)));
    assert!(store.insert_or_ignore(stored("laundry", 100, 130, 200, Status::Assigned)));
    assert_eq!(store.len(), 3);
    assert_eq!(store.rows()[1].expected_completion_time, 200);
    assert_eq!(store.rows()[2].title, "laundry");
}

#[test]
fn sweep_marks_expired_assigned_rows_missed() {
    let mut store = Store::new();
    store.insert_or_ignore(stored("a", 100, 130, 200, Status::Assigned));
    store.insert_or_ignore(stored("b", 100, 130, 500, Status::Assigned));
    store.insert_or_ignore(stored("c", 100, 130, 200, Status::Completed));
    store.insert_or_ignore(stored("d", 100, 130, 200, Status::Missed));
    let swept = store.sweep_missed(300);
    assert_eq!(swept, 1);
    assert_eq!(
        statuses(&store),
        vec![Status::Missed, Status::Assigned, Status::Completed, Status::Missed]
    );
}

#[test]
fn sweep_leaves_a_row_that_is_only_past_its_grace_period() {
    let mut store = Store::new();
    store.insert_or_ignore(stored("a", 100, 130, 500, Status::Assigned));
    assert_eq!(store.sweep_missed(400), 0);
    assert_eq!(statuses(&store), vec![Status::Assigned]);
}

#[test]
fn sweep_at_the_expiration_time_itself_changes_nothing() {
    let mut store = Store::new();
    store.insert_or_ignore(stored("a", 100, 130, 200, Status::Assigned));
    assert_eq!(store.sweep_missed(200), 0);
    assert_eq!(statuses(&store), vec![Status::Assigned]);
    assert_eq!(store.sweep_missed(201), 1);
    assert_eq!(statuses(&store), vec![Status::Missed]);
}

#[test]
fn sweep_changes_only_the_status() {
    let mut store = Store::new();
    store.insert_or_ignore(stored("a", 100, 130, 200, Status::Assigned));
    store.write_watermark(77);
    store.sweep_missed(1_000);
    let row = &store.rows()[0];
    assert_eq!(row.title, "a");
    assert_eq!(row.expected_completion_time, 100);
    assert_eq!(row.overdue_time, 130);
    assert_eq!(row.expiration_time, 200);
    assert_eq!(store.watermark(), Some(77));
    // A second sweep finds nothing left to change.
    assert_eq!(store.sweep_missed(1_000), 0);
}

#[test]
fn completing_an_existing_instance_marks_it_completed() {
    let mut store = Store::new();
    store.insert_or_ignore(stored("dishes", 100, 130, 200, Status::Assigned));
    store.insert_or_ignore(stored("dishes", 200, 230, 300, Status::Assigned));
    let outcome = store.complete(&"dishes".to_string(), 200);
    assert_eq!(outcome, CompletionOutcome::Completed);
    assert_eq!(statuses(&store), vec![Status::Assigned, Status::Completed]);
}

#[test]
fn completing_a_missing_instance_is_reported_as_not_found() {
    let mut store = Store::new();
    store.insert_or_ignore(stored("dishes", 100, 130, 200, Status::Assigned));
    assert_eq!(store.complete(&"dishes".to_string(), 101), CompletionOutcome::NotFound);
    assert_eq!(store.complete(&"laundry".to_string(), 100), CompletionOutcome::NotFound);
    assert_eq!(statuses(&store), vec![Status::Assigned]);
    assert_eq!(Store::new().complete(&"dishes".to_string(), 100), CompletionOutcome::NotFound);
}

#[test]
fn a_missed_instance_can_still_be_completed() {
    let mut store = Store::new();
    store.insert_or_ignore(stored("dishes", 100, 130, 200, Status::Assigned));
    store.sweep_missed(1_000);
    assert_eq!(statuses(&store), vec![Status::Missed]);
    assert_eq!(store.complete(&"dishes".to_string(), 100), CompletionOutcome::Completed);
    assert_eq!(statuses(&store), vec![Status::Completed]);
    // Completing again succeeds as well, and a sweep does not undo it.
    assert_eq!(store.complete(&"dishes".to_string(), 100), CompletionOutcome::Completed);
    store.sweep_missed(2_000);
    assert_eq!(statuses(&store), vec![Status::Completed]);
}

#[test]
fn watermark_is_replaced_by_a_write() {
    let mut store = Store::new();
    store.write_watermark(10);
    assert_eq!(store.watermark(), Some(10));
    store.write_watermark(5);
    assert_eq!(store.watermark(), Some(5));
}

#[test]
fn update_that_changed_no_row_means_not_found() {
    assert_eq!(outcome_of_update(0), CompletionOutcome::NotFound);
    assert_eq!(outcome_of_update(1), CompletionOutcome::Completed);
    assert_eq!(outcome_of_update(u64::MAX), CompletionOutcome::Completed);
}
