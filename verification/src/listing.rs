//! The read side: stored rows become listed chores, each with the display
//! status that the current time gives it. A row that cannot be shown yields
//! a warning and is left out; it never fails the listing.

use vstd::prelude::*;
use crate::config::{find_template, spec_find_template, view_templates, ChoreTemplate, TemplateView};
use crate::instance::{view_instances, ChoreInstance, InstanceView};
use crate::status::{
    derive_status,
    spec_derive_status,
    spec_parse_status,
    spec_status_word,
    ApiStatus,
    Status,
};
use crate::store::Store;
use crate::zone::{timestamp_in_range, UtcOffset, DAY_SECS, MAX_TIMESTAMP, MIN_TIMESTAMP};

verus! {

/// Why a stored row was left out of a listing.
#[derive(Clone, Copy, Debug, PartialEq, Eq, Structural)]
pub enum DataIntegrityWarning {
    /// The row has no title.
    MissingTitle,
    /// No template has the row's title.
    UnknownTemplate,
    /// The row has no due time.
    MissingExpectedCompletionTime,
    /// The row has no end of grace period.
    MissingOverdueTime,
    /// The row has no status.
    MissingStatus,
    /// The row's status is none of the three status words.
    UnknownStatus,
    /// The row is assigned, not yet due, and past its grace period at once.
    UpcomingAndOverdue,
}

/// What a stored row holds, as mathematical values.
pub struct RowView {
    pub title: Option<Seq<char>>,
    pub expected_completion_time: Option<int>,
    pub overdue_time: Option<int>,
    pub status: Option<Seq<char>>,
}

/// A row as it comes out of storage: any field may be missing, and the status
/// is still a word.
#[derive(Debug)]
pub struct StoredRow {
    pub title: Option<String>,
    pub expected_completion_time: Option<i64>,
    pub overdue_time: Option<i64>,
    pub status: Option<String>,
}

impl View for StoredRow {
    type V = RowView;

    open spec fn view(&self) -> RowView {
        RowView {
            title: match self.title {
                Some(t) => Some(t@),
                None => None,
            },
            expected_completion_time: match self.expected_completion_time {
                Some(t) => Some(t as int),
                None => None,
            },
            overdue_time: match self.overdue_time {
                Some(t) => Some(t as int),
                None => None,
            },
            status: match self.status {
                Some(s) => Some(s@),
                None => None,
            },
        }
    }
}

/// The mathematical values of a run of stored rows, in order.
pub open spec fn view_rows(rows: Seq<StoredRow>) -> Seq<RowView> {
    Seq::new(rows.len(), |i: int| rows[i]@)
}

/// What a listed chore holds, as mathematical values.
pub struct ApiChoreView {
    pub title: Seq<char>,
    pub description: Seq<char>,
    pub expected_completion_time: int,
    pub status: ApiStatus,
}

/// A chore as listed: the description comes from its template, the status
/// from the row and the current time.
#[derive(Debug)]
pub struct ApiChore {
    pub title: String,
    pub description: String,
    pub expected_completion_time: i64,
    pub status: ApiStatus,
}

impl View for ApiChore {
    type V = ApiChoreView;

    open spec fn view(&self) -> ApiChoreView {
        ApiChoreView {
            title: self.title@,
            description: self.description@,
            expected_completion_time: self.expected_completion_time as int,
            status: self.status,
        }
    }
}

/// The mathematical values of a run of listed chores, in order.
pub open spec fn view_chores(chores: Seq<ApiChore>) -> Seq<ApiChoreView> {
    Seq::new(chores.len(), |i: int| chores[i]@)
}

/// What becomes of one stored row at time `now`: the listed chore, or the
/// first reason for which it cannot be shown. The reasons are tried in the
/// order in which the warnings are declared.
pub open spec fn spec_present_row(row: RowView, templates: Seq<TemplateView>, now: int) -> Result<
    ApiChoreView,
    DataIntegrityWarning,
> {
    if row.title is None {
        Err(DataIntegrityWarning::MissingTitle)
    } else if spec_find_template(templates, row.title->0) is None {
        Err(DataIntegrityWarning::UnknownTemplate)
    } else if row.expected_completion_time is None {
        Err(DataIntegrityWarning::MissingExpectedCompletionTime)
    } else if row.overdue_time is None {
        Err(DataIntegrityWarning::MissingOverdueTime)
    } else if row.status is None {
        Err(DataIntegrityWarning::MissingStatus)
    } else if spec_parse_status(row.status->0) is None {
        Err(DataIntegrityWarning::UnknownStatus)
    } else {
        match spec_derive_status(
            spec_parse_status(row.status->0)->0,
            row.expected_completion_time->0,
            row.overdue_time->0,
            now,
        ) {
            None => Err(DataIntegrityWarning::UpcomingAndOverdue),
            Some(status) => Ok(
                ApiChoreView {
                    title: row.title->0,
                    description: templates[spec_find_template(
                        templates,
                        row.title->0,
                    )->0].description,
                    expected_completion_time: row.expected_completion_time->0,
                    status,
                },
            ),
        }
    }
}

/// Shows one stored row at time `now`. The row is looked at in this order:
/// the title, its template, the due time, the end of the grace period, the
/// status word, and last the combination of status and times; the first of
/// them that is missing or wrong names the warning.
pub fn present_row(row: &StoredRow, templates: &Vec<ChoreTemplate>, now: i64) -> (shown: Result<
    ApiChore,
    DataIntegrityWarning,
>)
    ensures
        match shown {
            Ok(chore) => spec_present_row(row@, view_templates(templates@), now as int) == Ok::<
                ApiChoreView,
                DataIntegrityWarning,
            >(chore@),
            Err(warning) => spec_present_row(row@, view_templates(templates@), now as int)
                == Err::<ApiChoreView, DataIntegrityWarning>(warning),
        },
{
    let title = match &row.title {
        Some(title) => title,
        None => {
            return Err(DataIntegrityWarning::MissingTitle);
        },
    };
    let index = match find_template(templates, title) {
        Some(index) => index,
        None => {
            return Err(DataIntegrityWarning::UnknownTemplate);
        },
    };
    let expected_completion_time = match row.expected_completion_time {
        Some(t) => t,
        None => {
            return Err(DataIntegrityWarning::MissingExpectedCompletionTime);
        },
    };
    let overdue_time = match row.overdue_time {
        Some(t) => t,
        None => {
            return Err(DataIntegrityWarning::MissingOverdueTime);
        },
    };
    let word = match &row.status {
        Some(word) => word,
        None => {
            return Err(DataIntegrityWarning::MissingStatus);
        },
    };
    let status = match Status::from_str(word.as_str()) {
        Ok(status) => status,
        Err(_) => {
            return Err(DataIntegrityWarning::UnknownStatus);
        },
    };
    match derive_status(status, expected_completion_time, overdue_time, now) {
        None => Err(DataIntegrityWarning::UpcomingAndOverdue),
        Some(display) => Ok(
            ApiChore {
                title: title.clone(),
                description: templates[index].description.clone(),
                expected_completion_time,
                status: display,
            },
        ),
    }
}

/// The chores that a run of rows yields, in the order of the rows.
pub open spec fn spec_listed_chores(rows: Seq<RowView>, templates: Seq<TemplateView>, now: int)
    -> Seq<ApiChoreView>
    decreases rows.len(),
{
    if rows.len() == 0 {
        Seq::empty()
    } else {
        match spec_present_row(rows.last(), templates, now) {
            Ok(chore) => spec_listed_chores(rows.drop_last(), templates, now).push(chore),
            Err(_) => spec_listed_chores(rows.drop_last(), templates, now),
        }
    }
}

/// The warnings that a run of rows yields, in the order of the rows.
pub open spec fn spec_listed_warnings(rows: Seq<RowView>, templates: Seq<TemplateView>, now: int)
    -> Seq<DataIntegrityWarning>
    decreases rows.len(),
{
    if rows.len() == 0 {
        Seq::empty()
    } else {
        match spec_present_row(rows.last(), templates, now) {
            Ok(_) => spec_listed_warnings(rows.drop_last(), templates, now),
            Err(warning) => spec_listed_warnings(rows.drop_last(), templates, now).push(warning),
        }
    }
}

/// A listing: the chores that can be shown, and a warning for each row that
/// was left out.
#[derive(Debug)]
pub struct Listing {
    pub chores: Vec<ApiChore>,
    pub warnings: Vec<DataIntegrityWarning>,
}

/// Shows a run of stored rows at time `now`: each row becomes a listed chore
/// or a warning, and both keep the order of the rows.
pub fn present_rows(rows: &Vec<StoredRow>, templates: &Vec<ChoreTemplate>, now: i64) -> (listing:
    Listing)
    ensures
        view_chores(listing.chores@) == spec_listed_chores(
            view_rows(rows@),
            view_templates(templates@),
            now as int,
        ),
        listing.warnings@ == spec_listed_warnings(
            view_rows(rows@),
            view_templates(templates@),
            now as int,
        ),
        listing.chores.len() + listing.warnings.len() == rows.len(),
{
    let ghost all = view_rows(rows@);
    let ghost known = view_templates(templates@);
    let mut chores: Vec<ApiChore> = Vec::new();
    let mut warnings: Vec<DataIntegrityWarning> = Vec::new();
    let mut i: usize = 0;
    while i < rows.len()
        invariant
            i <= rows.len(),
            all == view_rows(rows@),
            known == view_templates(templates@),
            chores.len() + warnings.len() == i,
            view_chores(chores@) == spec_listed_chores(all.take(i as int), known, now as int),
            warnings@ == spec_listed_warnings(all.take(i as int), known, now as int),
        decreases rows.len() - i,
    {
        assert(all.take(i + 1).drop_last() =~= all.take(i as int));
        let ghost shown = view_chores(chores@);
        match present_row(&rows[i], templates, now) {
            Ok(chore) => {
                let ghost added = chore@;
                chores.push(chore);
                assert(view_chores(chores@) =~= shown.push(added));
            },
            Err(warning) => {
                warnings.push(warning);
            },
        }
        i = i + 1;
    }
    assert(all.take(rows.len() as int) =~= all);
    Listing { chores, warnings }
}

/// Start of a listing that looks `lookback_days` days back from `now`.
pub open spec fn spec_window_start(now: int, lookback_days: int) -> int {
    now - lookback_days * DAY_SECS
}

/// The first second of the day after `now`, days being counted at `offset`
/// seconds east of UTC.
pub open spec fn spec_next_day_start(now: int, offset: int) -> int {
    ((now + offset) / (DAY_SECS as int) + 1) * DAY_SECS - offset
}

/// Why nothing could be listed.
#[derive(Clone, Copy, Debug, PartialEq, Eq, Structural)]
pub enum ListError {
    /// The current time is no supported timestamp.
    TimeOutOfRange,
}

/// The window of a listing at time `now`: from `lookback_days` days before
/// `now`, inclusive, to the start of the next day at the given offset,
/// exclusive. `None` exactly where `now` is no supported timestamp.
pub fn listing_window(now: i64, lookback_days: u32, zone: UtcOffset) -> (window: Option<
    (i64, i64),
>)
    ensures
        window.is_some() == timestamp_in_range(now as int),
        window matches Some((since, until)) ==> {
            &&& since == spec_window_start(now as int, lookback_days as int)
            &&& until == spec_next_day_start(now as int, zone.spec_secs())
            &&& since <= now < until
            &&& until - now <= DAY_SECS
        },
{
    if now < MIN_TIMESTAMP || now > MAX_TIMESTAMP {
        return None;
    }
    let days: i64 = lookback_days as i64;
    let since: i64 = now - days * DAY_SECS;
    let offset: i64 = zone.secs() as i64;
    let local: i64 = now + offset;
    let day: i64 = if local >= 0 {
        local / DAY_SECS
    } else {
        -((-local + (DAY_SECS - 1)) / DAY_SECS)
    };
    let until: i64 = (day + 1) * DAY_SECS - offset;
    Some((since, until))
}

/// Whether a row is due inside the window.
pub open spec fn in_window(row: InstanceView, since: int, until: int) -> bool {
    since <= row.expected_completion_time < until
}

/// Whether every row is due no earlier than the one before it.
pub open spec fn sorted_by_due(rows: Seq<InstanceView>) -> bool {
    forall|i: int, j: int|
        0 <= i <= j < rows.len() ==> (#[trigger] rows[i]).expected_completion_time <= (
        #[trigger] rows[j]).expected_completion_time
}

/// A run of rows ordered by due time with one more row put in: behind every
/// row that is due no later than it, and before the others.
pub open spec fn spec_sorted_insert(sorted: Seq<InstanceView>, row: InstanceView) -> Seq<
    InstanceView,
>
    decreases sorted.len(),
{
    if sorted.len() == 0 {
        seq![row]
    } else if sorted.last().expected_completion_time <= row.expected_completion_time {
        sorted.push(row)
    } else {
        spec_sorted_insert(sorted.drop_last(), row).push(sorted.last())
    }
}

/// The rows due inside the window, ordered by due time; rows due at the same
/// time keep the order in which they were stored.
pub open spec fn spec_select(rows: Seq<InstanceView>, since: int, until: int) -> Seq<InstanceView>
    decreases rows.len(),
{
    if rows.len() == 0 {
        Seq::empty()
    } else if in_window(rows.last(), since, until) {
        spec_sorted_insert(spec_select(rows.drop_last(), since, until), rows.last())
    } else {
        spec_select(rows.drop_last(), since, until)
    }
}

/// An instance as a stored row: every field present, the status as its word.
pub open spec fn spec_row_of(instance: InstanceView) -> RowView {
    RowView {
        title: Some(instance.title),
        expected_completion_time: Some(instance.expected_completion_time),
        overdue_time: Some(instance.overdue_time),
        status: Some(spec_status_word(instance.status)),
    }
}

/// A run of instances as stored rows, in order.
pub open spec fn spec_rows_of(instances: Seq<InstanceView>) -> Seq<RowView> {
    Seq::new(instances.len(), |i: int| spec_row_of(instances[i]))
}

/// Putting a row in at a position that has only later rows behind it, and a
/// row that is due no later before it, is the ordered insert.
proof fn lemma_sorted_insert_at(sorted: Seq<InstanceView>, row: InstanceView, pos: int)
    requires
        0 <= pos <= sorted.len(),
        forall|k: int|
            pos <= k < sorted.len() ==> (#[trigger] sorted[k]).expected_completion_time
                > row.expected_completion_time,
        pos > 0 ==> sorted[pos - 1].expected_completion_time <= row.expected_completion_time,
    ensures
        spec_sorted_insert(sorted, row) == sorted.insert(pos, row),
    decreases sorted.len(),
{
    if pos < sorted.len() {
        lemma_sorted_insert_at(sorted.drop_last(), row, pos);
    }
}

/// The ordered insert keeps the order, adds exactly the one row, and loses
/// none.
pub proof fn lemma_sorted_insert_keeps_order(sorted: Seq<InstanceView>, row: InstanceView)
    ensures
        spec_sorted_insert(sorted, row).len() == sorted.len() + 1,
        sorted_by_due(sorted) ==> sorted_by_due(spec_sorted_insert(sorted, row)),
        spec_sorted_insert(sorted, row).contains(row),
        forall|other: InstanceView|
            #![trigger spec_sorted_insert(sorted, row).contains(other)]
            #![trigger sorted.contains(other)]
            spec_sorted_insert(sorted, row).contains(other) <==> (other == row || sorted.contains(
                other,
            )),
    decreases sorted.len(),
{
    let out = spec_sorted_insert(sorted, row);
    if sorted.len() == 0 {
        assert(out[0] == row);
    } else if sorted.last().expected_completion_time <= row.expected_completion_time {
        // The row goes to the end.
        assert(out[sorted.len() as int] == row);
        assert forall|other: InstanceView| sorted.contains(other) implies out.contains(other) by {
            let i = sorted.index_of(other);
            assert(out[i] == other);
        }
    } else {
        // The row goes somewhere before the last one, which keeps its place.
        let front = sorted.drop_last();
        let mid = spec_sorted_insert(front, row);
        lemma_sorted_insert_keeps_order(front, row);
        assert(out == mid.push(sorted.last()));
        assert forall|other: InstanceView| mid.contains(other) implies out.contains(other) by {
            let i = mid.index_of(other);
            assert(out[i] == other);
        }
        assert forall|other: InstanceView| front.contains(other) implies sorted.contains(
            other,
        ) by {
            let i = front.index_of(other);
            assert(sorted[i] == other);
        }
        assert forall|other: InstanceView| sorted.contains(other) implies out.contains(other) by {
            let i = sorted.index_of(other);
            if i < front.len() {
                assert(front[i] == other);
            } else {
                assert(out[mid.len() as int] == other);
            }
        }
        assert forall|other: InstanceView| out.contains(other) implies (other == row
            || sorted.contains(other)) by {
            let i = out.index_of(other);
            if i < mid.len() {
                assert(mid[i] == other);
            } else {
                assert(sorted[sorted.len() - 1] == other);
            }
        }
        if sorted_by_due(sorted) {
            assert forall|i: int, j: int| 0 <= i <= j < front.len() implies (
            #[trigger] front[i]).expected_completion_time <= (
            #[trigger] front[j]).expected_completion_time by {
                assert(front[i] == sorted[i] && front[j] == sorted[j]);
            }
            assert forall|i: int, j: int| 0 <= i <= j < out.len() implies (
            #[trigger] out[i]).expected_completion_time <= (
            #[trigger] out[j]).expected_completion_time by {
                if j < mid.len() {
                    assert(out[i] == mid[i] && out[j] == mid[j]);
                } else if i < mid.len() {
                    // Every row before the last is the new row or an old one,
                    // and both are due no later than the last.
                    assert(out[i] == mid[i]);
                    assert(mid.contains(mid[i]));
                    if mid[i] != row {
                        let k = front.index_of(mid[i]);
                        assert(sorted[k] == mid[i]);
                    }
                }
            }
        }
    }
}

/// What a selection holds: exactly the stored rows that are due inside the
/// window, ordered by due time.
pub proof fn law_select_sorted_and_complete(rows: Seq<InstanceView>, since: int, until: int)
    ensures
        sorted_by_due(spec_select(rows, since, until)),
        spec_select(rows, since, until).len() <= rows.len(),
        forall|row: InstanceView|
            spec_select(rows, since, until).contains(row) <==> (rows.contains(row) && in_window(
                row,
                since,
                until,
            )),
    decreases rows.len(),
{
    let out = spec_select(rows, since, until);
    if rows.len() > 0 {
        let front = rows.drop_last();
        let last = rows.last();
        let mid = spec_select(front, since, until);
        law_select_sorted_and_complete(front, since, until);
        if in_window(last, since, until) {
            lemma_sorted_insert_keeps_order(mid, last);
        }
        assert(rows[rows.len() - 1] == last);
        assert forall|row: InstanceView| front.contains(row) implies rows.contains(row) by {
            let k = front.index_of(row);
            assert(rows[k] == row);
        }
        assert forall|row: InstanceView| rows.contains(row) implies (row == last
            || front.contains(row)) by {
            let k = rows.index_of(row);
            if k < front.len() {
                assert(front[k] == row);
            }
        }
        assert forall|row: InstanceView| out.contains(row) <==> (rows.contains(row) && in_window(
            row,
            since,
            until,
        )) by {
            assert(mid.contains(row) <==> (front.contains(row) && in_window(row, since, until)));
        }
    }
}

/// Selects the instances due inside the window `since <= due < until`, as
/// stored rows ordered by due time; rows due at the same time keep the order
/// in which they were stored.
pub fn select_window(instances: &Vec<ChoreInstance>, since: i64, until: i64) -> (selected: Vec<
    StoredRow,
>)
    ensures
        view_rows(selected@) == spec_rows_of(
            spec_select(view_instances(instances@), since as int, until as int),
        ),
{
    let ghost all = view_instances(instances@);
    let mut picked: Vec<ChoreInstance> = Vec::new();
    let mut i: usize = 0;
    while i < instances.len()
        invariant
            i <= instances.len(),
            all == view_instances(instances@),
            picked.len() <= i,
            view_instances(picked@) == spec_select(all.take(i as int), since as int, until as int),
        decreases instances.len() - i,
    {
        assert(all.take(i + 1).drop_last() =~= all.take(i as int));
        let due = instances[i].expected_completion_time;
        if since <= due && due < until {
            let ghost sorted = view_instances(picked@);
            let mut pos: usize = picked.len();
            while pos > 0 && picked[pos - 1].expected_completion_time > due
                invariant
                    pos <= picked.len(),
                    sorted == view_instances(picked@),
                    forall|k: int|
                        pos <= k < picked.len() ==> (
                        #[trigger] sorted[k]).expected_completion_time > due,
                decreases pos,
            {
                pos = pos - 1;
            }
            proof {
                lemma_sorted_insert_at(sorted, instances[i as int]@, pos as int);
            }
            picked.insert(pos, instances[i].clone());
        }
        i = i + 1;
    }
    assert(all.take(instances.len() as int) =~= all);
    let ghost chosen = view_instances(picked@);
    let mut selected: Vec<StoredRow> = Vec::new();
    let mut k: usize = 0;
    while k < picked.len()
        invariant
            k <= picked.len(),
            chosen == view_instances(picked@),
            selected.len() == k,
            forall|m: int| 0 <= m < k ==> (#[trigger] selected[m])@ == spec_row_of(chosen[m]),
        decreases picked.len() - k,
    {
        selected.push(stored_row_of(&picked[k]));
        k = k + 1;
    }
    selected
}

/// An instance as a stored row: every field present, the status as its word.
pub fn stored_row_of(instance: &ChoreInstance) -> (row: StoredRow)
    ensures
        row@ == spec_row_of(instance@),
{
    StoredRow {
        title: Some(instance.title.clone()),
        expected_completion_time: Some(instance.expected_completion_time),
        overdue_time: Some(instance.overdue_time),
        status: Some(instance.status.as_str().to_string()),
    }
}

/// Lists the chores of a store at time `now`: the instances due since
/// `lookback_days` days ago and before the start of the next day, ordered by
/// due time, each with its template's description and its display status. An
/// instance whose template is gone, or whose status and times contradict each
/// other, is left out with a warning.
///
/// Fails exactly where `now` is no supported timestamp.
pub fn list_chores(
    store: &Store,
    templates: &Vec<ChoreTemplate>,
    lookback_days: u32,
    now: i64,
    zone: UtcOffset,
) -> (listed: Result<Listing, ListError>)
    ensures
        listed.is_ok() == timestamp_in_range(now as int),
        listed matches Ok(listing) ==> {
            let rows = spec_rows_of(
                spec_select(
                    store@.rows,
                    spec_window_start(now as int, lookback_days as int),
                    spec_next_day_start(now as int, zone.spec_secs()),
                ),
            );
            &&& view_chores(listing.chores@) == spec_listed_chores(
                rows,
                view_templates(templates@),
                now as int,
            )
            &&& listing.warnings@ == spec_listed_warnings(
                rows,
                view_templates(templates@),
                now as int,
            )
        },
        listed matches Err(e) ==> e == ListError::TimeOutOfRange,
{
    match listing_window(now, lookback_days, zone) {
        None => Err(ListError::TimeOutOfRange),
        Some((since, until)) => {
            let rows = select_window(store.rows(), since, until);
            Ok(present_rows(&rows, templates, now))
        },
    }
}

} // verus!
