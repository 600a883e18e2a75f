//! Expansion of a recurrence expression into occurrences, and pairing of
//! consecutive occurrences into instances.

use vstd::prelude::*;
use chrono::TimeZone;
use std::str::FromStr;
use crate::config::{ChoreTemplate, Settings, TemplateView};
use crate::instance::{view_instances, ChoreInstance, InstanceView};
use crate::status::Status;
use crate::zone::{timestamp_in_range, UtcOffset, MAX_TIMESTAMP, MIN_TIMESTAMP};

verus! {

/// The schedule parser's error, `cron::error::Error`: carried, never read.
#[verifier::external_type_specification]
#[verifier::external_body]
pub struct ExCronError(cron::error::Error);

/// Whether the schedule parser accepts `expression` as a recurrence.
pub uninterp spec fn cron_expression_valid(expression: Seq<char>) -> bool;

/// The schedule's first occurrence after `after`, read at `utc_offset`
/// seconds east of UTC, in epoch seconds; `None` where the schedule has none.
pub uninterp spec fn cron_next_after(expression: Seq<char>, utc_offset: int, after: int) -> Option<
    i64,
>;

/// Parses `expression` and asks the schedule for its next occurrence.
///
/// Trusted: calls `cron::Schedule::from_str`, then `Schedule::after` at the
/// instant `after` seen from the given fixed offset, and takes the first item
/// of the iterator it returns. The contract claims that the call fails exactly
/// on the expressions the parser rejects, and that what it returns otherwise
/// depends on the three arguments alone. Nothing is claimed of where the
/// occurrence lies. The bounds keep `after` and the offset inside what
/// `chrono` can represent, so that neither conversion can fail.
#[verifier::external_body]
fn next_occurrence(expression: &str, utc_offset: i32, after: i64) -> (found: Result<
    Option<i64>,
    cron::error::Error,
>)
    requires
        -86_400 < utc_offset < 86_400,
        MIN_TIMESTAMP <= after <= MAX_TIMESTAMP,
    ensures
        found.is_ok() == cron_expression_valid(expression@),
        found matches Ok(next) ==> next == cron_next_after(
            expression@,
            utc_offset as int,
            after as int,
        ),
{
    let schedule = cron::Schedule::from_str(expression)?;
    let zone = chrono::FixedOffset::east_opt(utc_offset).unwrap();
    let start = zone.timestamp_opt(after, 0).unwrap();
    Ok(schedule.after(&start).next().map(|t| t.timestamp()))
}

/// Why a recurrence could not be expanded.
#[derive(Clone, Copy, Debug, PartialEq, Eq, Structural)]
pub enum ExpandError {
    /// The anchor lies outside the supported range of timestamps.
    AnchorOutOfRange,
    /// The expression is no recurrence.
    InvalidRecurrenceExpression,
}

/// The occurrence that follows `current`: what the schedule reports, as long
/// as it lies strictly later and inside the supported range. Anything else
/// ends the expansion.
pub open spec fn spec_next_occurrence(expression: Seq<char>, utc_offset: int, current: int)
    -> Option<i64> {
    match cron_next_after(expression, utc_offset, current) {
        Some(t) => if current < t <= MAX_TIMESTAMP {
            Some(t)
        } else {
            None
        },
        None => None,
    }
}

/// The occurrences strictly after `anchor`, in order, up to and including the
/// first one later than `horizon`.
pub open spec fn spec_occurrences(
    expression: Seq<char>,
    utc_offset: int,
    anchor: int,
    horizon: int,
) -> Seq<i64>
    decreases horizon - anchor,
{
    match spec_next_occurrence(expression, utc_offset, anchor) {
        None => Seq::empty(),
        Some(t) => if t > horizon {
            seq![t]
        } else {
            seq![t] + spec_occurrences(expression, utc_offset, t as int, horizon)
        },
    }
}

/// Whether every item is strictly later than the one before it.
pub open spec fn strictly_increasing(times: Seq<i64>) -> bool {
    forall|i: int, j: int| 0 <= i < j < times.len() ==> times[i] < times[j]
}

/// The instance for each occurrence that has a successor: due at the
/// occurrence, overdue `overdue_secs` later, expiring at the successor.
pub open spec fn spec_pair_occurrences(title: Seq<char>, occurrences: Seq<i64>, overdue_secs: int)
    -> Seq<InstanceView> {
    Seq::new(
        if occurrences.len() == 0 {
            0
        } else {
            (occurrences.len() - 1) as nat
        },
        |i: int|
            InstanceView {
                title,
                expected_completion_time: occurrences[i] as int,
                overdue_time: occurrences[i] + overdue_secs,
                expiration_time: occurrences[i + 1] as int,
                status: Status::Assigned,
            },
    )
}

/// Expands a recurrence: the occurrences strictly after `anchor`, in order,
/// up to and including the first one later than `horizon`. The expansion also
/// ends where the schedule has no further occurrence.
///
/// Fails with `AnchorOutOfRange` where `anchor` is no supported timestamp, and
/// otherwise with `InvalidRecurrenceExpression` where the expression does not
/// parse.
pub fn occurrences_after(expression: &str, zone: UtcOffset, anchor: i64, horizon: i64) -> (found:
    Result<Vec<i64>, ExpandError>)
    ensures
        match found {
            Ok(times) => {
                &&& timestamp_in_range(anchor as int)
                &&& cron_expression_valid(expression@)
                &&& times@ == spec_occurrences(
                    expression@,
                    zone.spec_secs(),
                    anchor as int,
                    horizon as int,
                )
                &&& strictly_increasing(times@)
                &&& forall|i: int|
                    0 <= i < times.len() ==> anchor < #[trigger] times[i] <= MAX_TIMESTAMP
                &&& forall|i: int| 0 <= i < times.len() - 1 ==> #[trigger] times[i] <= horizon
            },
            Err(ExpandError::AnchorOutOfRange) => !timestamp_in_range(anchor as int),
            Err(ExpandError::InvalidRecurrenceExpression) => {
                &&& timestamp_in_range(anchor as int)
                &&& !cron_expression_valid(expression@)
            },
        },
{
    if anchor < MIN_TIMESTAMP || anchor > MAX_TIMESTAMP {
        return Err(ExpandError::AnchorOutOfRange);
    }
    proof {
        law_occurrences_ordered(expression@, zone.spec_secs(), anchor as int, horizon as int);
    }
    let offset = zone.secs();
    let mut times: Vec<i64> = Vec::new();
    let mut current: i64 = anchor;
    let mut done = false;
    while !done
        invariant
            -86_400 < offset < 86_400,
            offset == zone.spec_secs(),
            timestamp_in_range(anchor as int),
            MIN_TIMESTAMP <= current <= MAX_TIMESTAMP,
            !done ==> times@ + spec_occurrences(
                expression@,
                offset as int,
                current as int,
                horizon as int,
            ) == spec_occurrences(expression@, offset as int, anchor as int, horizon as int),
            done ==> cron_expression_valid(expression@) && times@ == spec_occurrences(
                expression@,
                offset as int,
                anchor as int,
                horizon as int,
            ),
        decreases
            if done { 0 } else { 1 + (if current <= horizon { horizon - current } else { 0 }) },
    {
        match next_occurrence(expression, offset, current) {
            Err(_) => {
                return Err(ExpandError::InvalidRecurrenceExpression);
            },
            Ok(None) => {
                done = true;
            },
            Ok(Some(t)) => {
                if t <= current || t > MAX_TIMESTAMP {
                    done = true;
                } else if t > horizon {
                    times.push(t);
                    done = true;
                } else {
                    times.push(t);
                    current = t;
                }
            },
        }
    }
    Ok(times)
}

/// Pairs consecutive occurrences into instances. Each occurrence but the last
/// becomes one assigned instance under `title`: due at the occurrence, overdue
/// `overdue_secs` later, expiring at the next occurrence. The last occurrence
/// has no successor yet and yields nothing; fewer than two occurrences yield
/// no instance at all. The grace period is at least one second, so that every
/// instance is overdue strictly after it is due.
pub fn pair_occurrences(title: &String, occurrences: &Vec<i64>, overdue_secs: i64) -> (instances:
    Vec<ChoreInstance>)
    requires
        overdue_secs >= 1,
        forall|i: int|
            0 <= i < occurrences.len() ==> #[trigger] occurrences[i] + overdue_secs <= i64::MAX,
    ensures
        view_instances(instances@) == spec_pair_occurrences(
            title@,
            occurrences@,
            overdue_secs as int,
        ),
        instances.len() == if occurrences.len() == 0 {
            0
        } else {
            occurrences.len() - 1
        },
        forall|i: int|
            0 <= i < instances.len() ==> {
                &&& (#[trigger] instances[i])@.title == title@
                &&& instances[i]@.expected_completion_time == occurrences[i]
                &&& instances[i]@.overdue_time == occurrences[i] + overdue_secs
                &&& instances[i]@.expiration_time == occurrences[i + 1]
                &&& instances[i]@.status == Status::Assigned
                &&& instances[i]@.overdue_after_expected()
            },
{
    let mut instances: Vec<ChoreInstance> = Vec::new();
    if occurrences.len() < 2 {
        return instances;
    }
    let mut i: usize = 0;
    while i + 1 < occurrences.len()
        invariant
            occurrences.len() >= 2,
            i + 1 <= occurrences.len(),
            instances.len() == i,
            forall|k: int|
                0 <= k < occurrences.len() ==> i64::MIN <= #[trigger] occurrences[k]
                    + overdue_secs <= i64::MAX,
            forall|k: int|
                0 <= k < i ==> (#[trigger] instances[k])@ == spec_pair_occurrences(
                    title@,
                    occurrences@,
                    overdue_secs as int,
                )[k],
        decreases occurrences.len() - i,
    {
        let due = occurrences[i];
        instances.push(
            ChoreInstance {
                title: title.clone(),
                expected_completion_time: due,
                overdue_time: due + overdue_secs,
                expiration_time: occurrences[i + 1],
                status: Status::Assigned,
            },
        );
        i = i + 1;
    }
    instances
}

/// Every instance that pairing creates is assigned, carries the given title,
/// and ends its grace period exactly `overdue_secs` after its due time: after
/// it precisely where the grace period is positive.
pub proof fn law_paired_overdue_after_expected(
    title: Seq<char>,
    occurrences: Seq<i64>,
    overdue_secs: int,
    i: int,
)
    requires
        0 <= i < spec_pair_occurrences(title, occurrences, overdue_secs).len(),
    ensures
        spec_pair_occurrences(title, occurrences, overdue_secs)[i].overdue_time
            == spec_pair_occurrences(title, occurrences, overdue_secs)[i].expected_completion_time
            + overdue_secs,
        spec_pair_occurrences(title, occurrences, overdue_secs)[i].overdue_after_expected() == (
        overdue_secs > 0),
        spec_pair_occurrences(title, occurrences, overdue_secs)[i].status == Status::Assigned,
        spec_pair_occurrences(title, occurrences, overdue_secs)[i].title == title,
{
}

/// Three occurrences make exactly two instances, the first expiring at the
/// second occurrence and the second at the third; the third occurrence, like
/// any occurrence on its own, makes none.
pub proof fn law_pairing_of_three(title: Seq<char>, t0: i64, t1: i64, t2: i64, overdue_secs: int)
    ensures
        spec_pair_occurrences(title, seq![t0, t1, t2], overdue_secs) == seq![
            InstanceView {
                title,
                expected_completion_time: t0 as int,
                overdue_time: t0 + overdue_secs,
                expiration_time: t1 as int,
                status: Status::Assigned,
            },
            InstanceView {
                title,
                expected_completion_time: t1 as int,
                overdue_time: t1 + overdue_secs,
                expiration_time: t2 as int,
                status: Status::Assigned,
            },
        ],
        spec_pair_occurrences(title, seq![t2], overdue_secs) == Seq::<InstanceView>::empty(),
        spec_pair_occurrences(title, Seq::<i64>::empty(), overdue_secs) == Seq::<
            InstanceView,
        >::empty(),
{
}

/// What holds of every expansion, whatever the schedule: the occurrences lie
/// strictly after the anchor and inside the supported range, each strictly
/// later than the one before, and only the last can lie beyond the horizon.
pub proof fn law_occurrences_ordered(
    expression: Seq<char>,
    utc_offset: int,
    anchor: int,
    horizon: int,
)
    ensures
        strictly_increasing(spec_occurrences(expression, utc_offset, anchor, horizon)),
        forall|i: int|
            0 <= i < spec_occurrences(expression, utc_offset, anchor, horizon).len() ==> anchor
                < #[trigger] spec_occurrences(expression, utc_offset, anchor, horizon)[i]
                <= MAX_TIMESTAMP,
        forall|i: int|
            0 <= i < spec_occurrences(expression, utc_offset, anchor, horizon).len() - 1
                ==> #[trigger] spec_occurrences(expression, utc_offset, anchor, horizon)[i]
                <= horizon,
    decreases horizon - anchor,
{
    match spec_next_occurrence(expression, utc_offset, anchor) {
        None => {},
        Some(t) => {
            if t <= horizon {
                law_occurrences_ordered(expression, utc_offset, t as int, horizon);
            }
        },
    }
}

/// Whether `expression` is a recurrence that can be expanded.
pub fn is_valid_expression(expression: &str) -> (valid: bool)
    ensures
        valid == cron_expression_valid(expression@),
{
    next_occurrence(expression, 0, 0).is_ok()
}

/// Index of the first template whose expression is no recurrence, if there is
/// one.
pub fn first_invalid_template(templates: &Vec<ChoreTemplate>) -> (found: Option<usize>)
    ensures
        match found {
            Some(i) => {
                &&& i < templates.len()
                &&& !cron_expression_valid(templates[i as int]@.recurrence_expression)
                &&& forall|k: int|
                    0 <= k < i ==> cron_expression_valid(
                        (#[trigger] templates[k])@.recurrence_expression,
                    )
            },
            None => forall|k: int|
                0 <= k < templates.len() ==> cron_expression_valid(
                    (#[trigger] templates[k])@.recurrence_expression,
                ),
        },
{
    let mut i: usize = 0;
    while i < templates.len()
        invariant
            i <= templates.len(),
            forall|k: int|
                0 <= k < i ==> cron_expression_valid(
                    (#[trigger] templates[k])@.recurrence_expression,
                ),
        decreases templates.len() - i,
    {
        if !is_valid_expression(templates[i].recurrence_expression.as_str()) {
            return Some(i);
        }
        i = i + 1;
    }
    None
}

/// The instances that one template yields when expanded from `anchor`: the
/// pairs of its occurrences up to and including the first one later than
/// `anchor` plus the lookahead. A template whose expression does not parse
/// yields none.
pub open spec fn spec_template_instances(
    template: TemplateView,
    settings: Settings,
    anchor: int,
) -> Seq<InstanceView> {
    if cron_expression_valid(template.recurrence_expression) {
        spec_pair_occurrences(
            template.title,
            spec_occurrences(
                template.recurrence_expression,
                settings.spec_zone().spec_secs(),
                anchor,
                anchor + settings.spec_lookahead_secs(),
            ),
            settings.spec_overdue_secs(),
        )
    } else {
        Seq::empty()
    }
}

/// Expands one template from `anchor`: its occurrences strictly after the
/// anchor, up to and including the first one later than the anchor plus the
/// lookahead, paired into assigned instances.
///
/// Fails with `AnchorOutOfRange` where `anchor` is no supported timestamp, and
/// otherwise with `InvalidRecurrenceExpression` where the template's
/// expression does not parse.
pub fn expand_template(template: &ChoreTemplate, settings: &Settings, anchor: i64) -> (expanded:
    Result<Vec<ChoreInstance>, ExpandError>)
    ensures
        match expanded {
            Ok(instances) => {
                &&& timestamp_in_range(anchor as int)
                &&& cron_expression_valid(template@.recurrence_expression)
                &&& view_instances(instances@) == spec_template_instances(
                    template@,
                    *settings,
                    anchor as int,
                )
                &&& forall|i: int|
                    0 <= i < instances.len() ==> {
                        &&& (#[trigger] instances[i])@.title == template@.title
                        &&& instances[i]@.status == Status::Assigned
                        &&& anchor < instances[i]@.expected_completion_time
                        &&& instances[i]@.overdue_time == instances[i]@.expected_completion_time
                            + settings.spec_overdue_secs()
                        &&& instances[i]@.overdue_after_expected()
                        &&& instances[i]@.expiration_time > instances[i]@.expected_completion_time
                    }
                &&& forall|i: int, j: int|
                    0 <= i < j < instances.len() ==> (
                    #[trigger] instances[i])@.expected_completion_time < (
                    #[trigger] instances[j])@.expected_completion_time
            },
            Err(ExpandError::AnchorOutOfRange) => !timestamp_in_range(anchor as int),
            Err(ExpandError::InvalidRecurrenceExpression) => {
                &&& timestamp_in_range(anchor as int)
                &&& !cron_expression_valid(template@.recurrence_expression)
            },
        },
{
    if anchor < MIN_TIMESTAMP || anchor > MAX_TIMESTAMP {
        return Err(ExpandError::AnchorOutOfRange);
    }
    let horizon = anchor + settings.lookahead_secs();
    let overdue_secs = settings.overdue_secs();
    let zone = settings.zone();
    match occurrences_after(template.recurrence_expression.as_str(), zone, anchor, horizon) {
        Err(e) => Err(e),
        Ok(times) => {
            let instances = pair_occurrences(&template.title, &times, overdue_secs);
            proof {
                settings.lemma_wf_bounds();
                law_template_instances_ordered(template@, *settings, anchor as int);
                assert forall|i: int| 0 <= i < instances.len() implies {
                    &&& (#[trigger] instances[i])@.title == template@.title
                    &&& instances[i]@.status == Status::Assigned
                    &&& anchor < instances[i]@.expected_completion_time
                    &&& instances[i]@.overdue_time == instances[i]@.expected_completion_time
                        + settings.spec_overdue_secs()
                    &&& instances[i]@.overdue_after_expected()
                    &&& instances[i]@.expiration_time > instances[i]@.expected_completion_time
                } by {
                    assert(instances[i]@ == view_instances(instances@)[i]);
                }
                assert forall|i: int, j: int| 0 <= i < j < instances.len() implies (
                #[trigger] instances[i])@.expected_completion_time < (
                #[trigger] instances[j])@.expected_completion_time by {
                    assert(instances[i]@ == view_instances(instances@)[i]);
                    assert(instances[j]@ == view_instances(instances@)[j]);
                }
            }
            Ok(instances)
        },
    }
}

/// What holds of every instance that a template yields: it carries the
/// template's title, is assigned, is due after the anchor, ends its grace
/// period the configured number of seconds after it is due, and expires
/// after it is due. No two instances of one template are due at the same
/// time: each is due later than the one before it.
pub proof fn law_template_instances_ordered(
    template: TemplateView,
    settings: Settings,
    anchor: int,
)
    ensures
        forall|i: int|
            0 <= i < spec_template_instances(template, settings, anchor).len() ==> {
                let made = #[trigger] spec_template_instances(template, settings, anchor)[i];
                &&& made.title == template.title
                &&& made.status == Status::Assigned
                &&& anchor < made.expected_completion_time
                &&& made.overdue_time == made.expected_completion_time
                    + settings.spec_overdue_secs()
                &&& made.expiration_time > made.expected_completion_time
            },
        forall|i: int, j: int|
            0 <= i < j < spec_template_instances(template, settings, anchor).len() ==> (
            #[trigger] spec_template_instances(
                template,
                settings,
                anchor,
            )[i]).expected_completion_time < (#[trigger] spec_template_instances(
                template,
                settings,
                anchor,
            )[j]).expected_completion_time,
{
    law_occurrences_ordered(
        template.recurrence_expression,
        settings.spec_zone().spec_secs(),
        anchor,
        anchor + settings.spec_lookahead_secs(),
    );
}

/// Under valid settings every instance that a template yields ends its grace
/// period strictly after it is due.
pub proof fn law_template_overdue_after_expected(
    template: TemplateView,
    settings: Settings,
    anchor: int,
    i: int,
)
    requires
        settings.wf(),
        0 <= i < spec_template_instances(template, settings, anchor).len(),
    ensures
        spec_template_instances(template, settings, anchor)[i].overdue_after_expected(),
{
    settings.lemma_wf_bounds();
    law_template_instances_ordered(template, settings, anchor);
}

/// Pairing at the level of a template: where its expansion from `anchor`
/// consists of three occurrences, the template yields exactly two instances,
/// due at the first and the second and expiring at the second and the third.
/// Where it consists of one occurrence, the template yields none.
pub proof fn law_template_pairs_its_occurrences(
    template: TemplateView,
    settings: Settings,
    anchor: int,
    t0: i64,
    t1: i64,
    t2: i64,
)
    requires
        cron_expression_valid(template.recurrence_expression),
    ensures
        spec_occurrences(
            template.recurrence_expression,
            settings.spec_zone().spec_secs(),
            anchor,
            anchor + settings.spec_lookahead_secs(),
        ) == seq![t0, t1, t2] ==> spec_template_instances(template, settings, anchor) == seq![
            InstanceView {
                title: template.title,
                expected_completion_time: t0 as int,
                overdue_time: t0 + settings.spec_overdue_secs(),
                expiration_time: t1 as int,
                status: Status::Assigned,
            },
            InstanceView {
                title: template.title,
                expected_completion_time: t1 as int,
                overdue_time: t1 + settings.spec_overdue_secs(),
                expiration_time: t2 as int,
                status: Status::Assigned,
            },
        ],
        spec_occurrences(
            template.recurrence_expression,
            settings.spec_zone().spec_secs(),
            anchor,
            anchor + settings.spec_lookahead_secs(),
        ) == seq![t2] ==> spec_template_instances(template, settings, anchor) == Seq::<
            InstanceView,
        >::empty(),
{
    law_pairing_of_three(template.title, t0, t1, t2, settings.spec_overdue_secs());
}

} // verus!
