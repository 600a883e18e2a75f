use chores::config::{find_template, ChoreTemplate, Settings};
use chores::generator::Scheduler;
use chores::instance::ChoreInstance;
use chores::listing::{
    list_chores, listing_window, present_row, present_rows, select_window, stored_row_of,
    ApiChore, DataIntegrityWarning, ListError, StoredRow,
};
use chores::status::{ApiStatus, Status};
use chores::store::Store;
use chores::zone::UtcOffset;

fn known(title: &str, description: &str) -> ChoreTemplate {
    ChoreTemplate {
        title: title.to_string(),
        description: description.to_string(),
        recurrence_expression: "0 * * * * *".to_string(),
    }
}

fn catalogue() -> Vec<ChoreTemplate> {
    vec![known("dishes", "Wash the dishes"), known("laundry", "Do the laundry")]
}

fn raw(title: &str, due: i64, overdue: i64, status: &str) -> StoredRow {
    StoredRow {
        title: Some(title.to_string()),
        expected_completion_time: Some(due),
        overdue_time: Some(overdue),
        status: Some(status.to_string()),
    }
}

fn typed(title: &str, due: i64, status: Status) -> ChoreInstance {
    ChoreInstance {
        title: title.to_string(),
        expected_completion_time: due,
        overdue_time: due + 10,
        expiration_time: due + 100,
        status,
    }
}

fn shown(chores: &[ApiChore]) -> Vec<(String, String, i64, ApiStatus)> {
    chores
        .iter()
        .map(|c| (c.title.clone(), c.description.clone(), c.expected_completion_time, c.status))
        .collect()
}

#[test]
fn template_is_found_by_title() {
    let templates = catalogue();
    assert_eq!(find_template(&templates, &"dishes".to_string()), Some(0));
    assert_eq!(find_template(&templates, &"laundry".to_string()), Some(1));
    assert_eq!(find_template(&templates, &"Dishes".to_string()), None);
    assert_eq!(find_template(&Vec::new(), &"dishes".to_string()), None);
}

#[test]
fn first_of_two_templates_with_one_title_is_found() {
    let templates = vec![known("dishes", "first"), known("dishes", "second")];
    assert_eq!(find_template(&templates, &"dishes".to_string()), Some(0));
    let chore = present_row(&raw("dishes", 100, 200, "assigned"), &templates, 150).unwrap();
    assert_eq!(chore.description, "first");
}

#[test]
fn row_is_shown_with_description_and_display_status() {
    let templates = catalogue();
    let chore = present_row(&raw("laundry", 100, 200, "assigned"), &templates, 50).unwrap();
    assert_eq!(chore.title, "laundry");
    assert_eq!(chore.description, "Do the laundry");
    assert_eq!(chore.expected_completion_time, 100);
    assert_eq!(chore.status, ApiStatus::Upcoming);
    let status = |word: &str, now: i64| {
        present_row(&raw("dishes", 100, 200, word), &templates, now).map(|c| c.status)
    };
    assert_eq!(status("assigned", 150), Ok(ApiStatus::Assigned));
    assert_eq!(status("assigned", 250), Ok(ApiStatus::Overdue));
    assert_eq!(status("completed", 250), Ok(ApiStatus::Completed));
    assert_eq!(status("missed", 50), Ok(ApiStatus::Missed));
}

#[test]
fn each_defect_of_a_row_has_its_warning() {
    let templates = catalogue();
    let warning = |row: StoredRow, now: i64| present_row(&row, &templates, now).err();
    let mut row = raw("dishes", 100, 200, "assigned");
    row.title = None;
    assert_eq!(warning(row, 150), Some(DataIntegrityWarning::MissingTitle));
    assert_eq!(
        warning(raw("windows", 100, 200, "assigned"), 150),
        Some(DataIntegrityWarning::UnknownTemplate)
    );
    let mut row = raw("dishes", 100, 200, "assigned");
    row.expected_completion_time = None;
    assert_eq!(warning(row, 150), Some(DataIntegrityWarning::MissingExpectedCompletionTime));
    let mut row = raw("dishes", 100, 200, "assigned");
    row.overdue_time = None;
    assert_eq!(warning(row, 150), Some(DataIntegrityWarning::MissingOverdueTime));
    let mut row = raw("dishes", 100, 200, "assigned");
    row.status = None;
    assert_eq!(warning(row, 150), Some(DataIntegrityWarning::MissingStatus));
    assert_eq!(
        warning(raw("dishes", 100, 200, "done"), 150),
        Some(DataIntegrityWarning::UnknownStatus)
    );
    assert_eq!(
        warning(raw("dishes", 200, 100, "assigned"), 150),
        Some(DataIntegrityWarning::UpcomingAndOverdue)
    );
}

#[test]
fn first_failing_check_names_the_warning() {
    let templates = catalogue();
    let nothing =
        StoredRow { title: None, expected_completion_time: None, overdue_time: None, status: None };
    assert_eq!(
        present_row(&nothing, &templates, 0).err(),
        Some(DataIntegrityWarning::MissingTitle)
    );
    let unknown_and_empty = StoredRow {
        title: Some("windows".to_string()),
        expected_completion_time: None,
        overdue_time: None,
        status: None,
    };
    assert_eq!(
        present_row(&unknown_and_empty, &templates, 0).err(),
        Some(DataIntegrityWarning::UnknownTemplate)
    );
    let mut row = raw("dishes", 100, 200, "done");
    row.overdue_time = None;
    assert_eq!(
        present_row(&row, &templates, 0).err(),
        Some(DataIntegrityWarning::MissingOverdueTime)
    );
}

#[test]
fn contradiction_is_flagged_for_assigned_rows_only() {
    let templates = catalogue();
    let status = |word: &str| {
        present_row(&raw("dishes", 200, 100, word), &templates, 150).map(|c| c.status)
    };
    assert_eq!(status("assigned"), Err(DataIntegrityWarning::UpcomingAndOverdue));
    assert_eq!(status("completed"), Ok(ApiStatus::Completed));
    assert_eq!(status("missed"), Ok(ApiStatus::Missed));
}

#[test]
fn rows_that_cannot_be_shown_are_left_out_with_a_warning() {
    let rows = vec![
        raw("dishes", 100, 200, "assigned"),
        raw("windows", 110, 200, "assigned"),
        raw("laundry", 120, 200, "done"),
        raw("laundry", 130, 200, "completed"),
    ];
    let listing = present_rows(&rows, &catalogue(), 150);
    assert_eq!(
        shown(&listing.chores),
        vec![
            ("dishes".to_string(), "Wash the dishes".to_string(), 100, ApiStatus::Assigned),
            ("laundry".to_string(), "Do the laundry".to_string(), 130, ApiStatus::Completed),
        ]
    );
    assert_eq!(
        listing.warnings,
        vec![DataIntegrityWarning::UnknownTemplate, DataIntegrityWarning::UnknownStatus]
    );
    let empty = present_rows(&Vec::new(), &catalogue(), 150);
    assert!(empty.chores.is_empty() && empty.warnings.is_empty());
}

#[test]
fn window_reaches_from_the_lookback_to_the_next_midnight() {
    let now = 1_700_000_000;
    assert_eq!(
        listing_window(now, 0, UtcOffset::utc()),
        Some((1_700_000_000, 1_700_006_400))
    );
    assert_eq!(
        listing_window(now, 2, UtcOffset::utc()),
        Some((1_700_000_000 - 172_800, 1_700_006_400))
    );
    // Two hours east, the local day has already turned.
    let east = UtcOffset::new(7_200).unwrap();
    assert_eq!(listing_window(now, 0, east), Some((now, 1_700_085_600)));
    let west = UtcOffset::new(-7_200).unwrap();
    assert_eq!(listing_window(now, 0, west), Some((now, 1_700_013_600)));
}

#[test]
fn window_at_midnight_and_before_the_epoch() {
    let utc = UtcOffset::utc();
    assert_eq!(listing_window(0, 0, utc), Some((0, 86_400)));
    assert_eq!(listing_window(86_399, 0, utc), Some((86_399, 86_400)));
    assert_eq!(listing_window(86_400, 1, utc), Some((0, 172_800)));
    assert_eq!(listing_window(-1, 0, utc), Some((-1, 0)));
    assert_eq!(listing_window(-86_400, 0, utc), Some((-86_400, 0)));
    assert_eq!(listing_window(-86_401, 0, utc), Some((-86_401, -86_400)));
    assert_eq!(
        listing_window(0, u32::MAX, utc),
        Some((-(u32::MAX as i64) * 86_400, 86_400))
    );
}

#[test]
fn window_is_refused_for_a_time_out_of_range() {
    assert_eq!(listing_window(253_402_300_800, 0, UtcOffset::utc()), None);
    assert_eq!(listing_window(-62_167_219_201, 0, UtcOffset::utc()), None);
    assert_eq!(listing_window(i64::MIN, 0, UtcOffset::utc()), None);
    assert!(listing_window(253_402_300_799, 0, UtcOffset::utc()).is_some());
    assert!(listing_window(-62_167_219_200, 0, UtcOffset::utc()).is_some());
}

#[test]
fn selection_is_ordered_by_due_time() {
    let instances = vec![
        typed("c", 300, Status::Assigned),
        typed("a", 100, Status::Missed),
        typed("d", 400, Status::Assigned),
        typed("b", 200, Status::Completed),
    ];
    let rows = select_window(&instances, 0, 1_000);
    let read: Vec<(String, i64, i64, String)> = rows
        .iter()
        .map(|r| {
            (
                r.title.clone().unwrap(),
                r.expected_completion_time.unwrap(),
                r.overdue_time.unwrap(),
                r.status.clone().unwrap(),
            )
        })
        .collect();
    assert_eq!(
        read,
        vec![
            ("a".to_string(), 100, 110, "missed".to_string()),
            ("b".to_string(), 200, 210, "completed".to_string()),
            ("c".to_string(), 300, 310, "assigned".to_string()),
            ("d".to_string(), 400, 410, "assigned".to_string()),
        ]
    );
}

#[test]
fn selection_keeps_stored_order_among_rows_due_together() {
    let instances = vec![
        typed("z", 100, Status::Assigned),
        typed("m", 50, Status::Assigned),
        typed("a", 100, Status::Assigned),
        typed("k", 100, Status::Assigned),
    ];
    let titles: Vec<String> =
        select_window(&instances, 0, 1_000).into_iter().map(|r| r.title.unwrap()).collect();
    assert_eq!(titles, vec!["m", "z", "a", "k"]);
}

#[test]
fn selection_includes_the_start_and_excludes_the_end_of_the_window() {
    let instances = vec![
        typed("before", 99, Status::Assigned),
        typed("start", 100, Status::Assigned),
        typed("last", 199, Status::Assigned),
        typed("end", 200, Status::Assigned),
    ];
    let titles: Vec<String> =
        select_window(&instances, 100, 200).into_iter().map(|r| r.title.unwrap()).collect();
    assert_eq!(titles, vec!["start", "last"]);
    assert!(select_window(&instances, 200, 100).is_empty());
    assert!(select_window(&Vec::new(), 0, 1_000).is_empty());
}

#[test]
fn instance_as_stored_row_has_every_field() {
    let row = stored_row_of(&typed("dishes", 100, Status::Missed));
    assert_eq!(row.title.as_deref(), Some("dishes"));
    assert_eq!(row.expected_completion_time, Some(100));
    assert_eq!(row.overdue_time, Some(110));
    assert_eq!(row.status.as_deref(), Some("missed"));
}

#[test]
fn listing_of_a_store_joins_sorts_and_derives() {
    let now = 1_700_000_000;
    let mut store = Store::new();
    for instance in [
        ChoreInstance {
            title: "laundry".to_string(),
            expected_completion_time: now + 600,
            overdue_time: now + 700,
            expiration_time: now + 800,
            status: Status::Assigned,
        },
        ChoreInstance {
            title: "dishes".to_string(),
            expected_completion_time: now - 600,
            overdue_time: now - 500,
            expiration_time: now + 800,
            status: Status::Assigned,
        },
        ChoreInstance {
            title: "windows".to_string(),
            expected_completion_time: now - 10,
            overdue_time: now + 500,
            expiration_time: now + 800,
            status: Status::Assigned,
        },
        ChoreInstance {
            title: "dishes".to_string(),
            expected_completion_time: now - 86_400,
            overdue_time: now - 86_000,
            expiration_time: now - 600,
            status: Status::Missed,
        },
        ChoreInstance {
            title: "dishes".to_string(),
            expected_completion_time: now - 1,
            overdue_time: now + 500,
            expiration_time: now + 800,
            status: Status::Assigned,
        },
        ChoreInstance {
            title: "dishes".to_string(),
            expected_completion_time: 1_700_006_400,
            overdue_time: 1_700_006_500,
            expiration_time: 1_700_006_600,
            status: Status::Assigned,
        },
    ] {
        assert!(store.insert_or_ignore(instance));
    }
    let today = list_chores(&store, &catalogue(), 0, now, UtcOffset::utc()).unwrap();
    assert_eq!(
        shown(&today.chores),
        vec![("laundry".to_string(), "Do the laundry".to_string(), now + 600, ApiStatus::Upcoming)]
    );
    assert!(today.warnings.is_empty());
    let week = list_chores(&store, &catalogue(), 7, now, UtcOffset::utc()).unwrap();
    assert_eq!(
        shown(&week.chores),
        vec![
            ("dishes".to_string(), "Wash the dishes".to_string(), now - 86_400, ApiStatus::Missed),
            ("dishes".to_string(), "Wash the dishes".to_string(), now - 600, ApiStatus::Overdue),
            ("dishes".to_string(), "Wash the dishes".to_string(), now - 1, ApiStatus::Assigned),
            ("laundry".to_string(), "Do the laundry".to_string(), now + 600, ApiStatus::Upcoming),
        ]
    );
    assert_eq!(week.warnings, vec![DataIntegrityWarning::UnknownTemplate]);
}

#[test]
fn listing_is_refused_for_a_time_out_of_range() {
    let r = list_chores(&Store::new(), &catalogue(), 0, i64::MAX, UtcOffset::utc());
    assert_eq!(r.err(), Some(ListError::TimeOutOfRange));
}

#[test]
fn listing_after_a_tick_shows_what_the_tick_created() {
    let now = 1_700_000_000;
    let mut scheduler = Scheduler::new(
        catalogue(),
        Settings::new(20, 100, 3_600, UtcOffset::utc()).unwrap(),
    ).unwrap();
    scheduler.tick(now);
    let listing =
        list_chores(scheduler.store(), scheduler.templates(), 0, now + 70, UtcOffset::utc())
            .unwrap();
    assert_eq!(
        shown(&listing.chores),
        vec![
            ("dishes".to_string(), "Wash the dishes".to_string(), now + 100, ApiStatus::Upcoming),
            ("laundry".to_string(), "Do the laundry".to_string(), now + 100, ApiStatus::Upcoming),
        ]
    );
    let listing =
        list_chores(scheduler.store(), scheduler.templates(), 1, now + 70, UtcOffset::utc())
            .unwrap();
    assert_eq!(
        shown(&listing.chores),
        vec![
            ("dishes".to_string(), "Wash the dishes".to_string(), now + 40, ApiStatus::Overdue),
            ("laundry".to_string(), "Do the laundry".to_string(), now + 40, ApiStatus::Overdue),
            ("dishes".to_string(), "Wash the dishes".to_string(), now + 100, ApiStatus::Upcoming),
            ("laundry".to_string(), "Do the laundry".to_string(), now + 100, ApiStatus::Upcoming),
        ]
    );
}
