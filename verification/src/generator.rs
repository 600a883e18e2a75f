//! The generator: what one tick does to the store, planned from the
//! watermark and the templates, and the scheduler that counts ticks.

use vstd::prelude::*;
use crate::config::{
    titles_are_distinct,
    titles_distinct,
    view_templates,
    ChoreTemplate,
    ConfigError,
    Settings,
    TemplateView,
};
use crate::instance::{view_instances, ChoreInstance, InstanceView};
use crate::recurrence::{
    cron_expression_valid,
    expand_template,
    law_template_instances_ordered,
    law_template_overdue_after_expected,
    spec_template_instances,
};
use crate::status::Status;
use crate::store::{
    contains_key,
    keys_distinct,
    keys_of,
    lemma_insert_all_adds_instances,
    lemma_insert_all_keeps_rows,
    lemma_insert_all_present,
    lemma_sweep_keeps_keys,
    spec_complete,
    spec_insert_all,
    spec_sweep,
    spec_sweep_row,
    spec_swept_count,
    CompletionOutcome,
    Store,
    StoreView,
};
use crate::zone::{timestamp_in_range, MAX_TIMESTAMP, MIN_TIMESTAMP};

verus! {

/// Why a tick could not be planned.
#[derive(Clone, Copy, Debug, PartialEq, Eq, Structural)]
pub enum TickError {
    /// The anchor, the watermark or else the current time, is no supported
    /// timestamp.
    AnchorOutOfRange,
}

/// What a plan holds, as mathematical values.
pub struct PlanView {
    pub now: int,
    pub anchor: int,
    pub inserts: Seq<InstanceView>,
    pub failed: Seq<Seq<char>>,
}

/// What one tick does: sweep at `now`, insert `inserts` in order, each unless
/// its row exists, and write `anchor` as the watermark. `failed` names the
/// templates that were left out because their expression does not parse.
#[derive(Debug)]
pub struct TickPlan {
    pub now: i64,
    pub anchor: i64,
    pub inserts: Vec<ChoreInstance>,
    pub failed: Vec<String>,
}

/// The character sequences of a run of strings, in order.
pub open spec fn view_strings(strings: Seq<String>) -> Seq<Seq<char>> {
    Seq::new(strings.len(), |i: int| strings[i]@)
}

impl View for TickPlan {
    type V = PlanView;

    open spec fn view(&self) -> PlanView {
        PlanView {
            now: self.now as int,
            anchor: self.anchor as int,
            inserts: view_instances(self.inserts@),
            failed: view_strings(self.failed@),
        }
    }
}

/// The anchor of a tick: the watermark, or the current time where no
/// watermark was written yet.
pub open spec fn spec_anchor(watermark: Option<int>, now: int) -> int {
    match watermark {
        Some(t) => t,
        None => now,
    }
}

/// The instances of all templates, template by template in their order.
pub open spec fn spec_plan_inserts(templates: Seq<TemplateView>, settings: Settings, anchor: int)
    -> Seq<InstanceView>
    decreases templates.len(),
{
    if templates.len() == 0 {
        Seq::empty()
    } else {
        spec_plan_inserts(templates.drop_last(), settings, anchor) + spec_template_instances(
            templates.last(),
            settings,
            anchor,
        )
    }
}

/// The titles of the templates whose expression does not parse, in order.
pub open spec fn spec_failed_titles(templates: Seq<TemplateView>) -> Seq<Seq<char>>
    decreases templates.len(),
{
    if templates.len() == 0 {
        Seq::empty()
    } else if cron_expression_valid(templates.last().recurrence_expression) {
        spec_failed_titles(templates.drop_last())
    } else {
        spec_failed_titles(templates.drop_last()).push(templates.last().title)
    }
}

/// The plan of the tick at `now` over a store holding `watermark`.
pub open spec fn spec_plan(
    watermark: Option<int>,
    now: int,
    templates: Seq<TemplateView>,
    settings: Settings,
) -> PlanView {
    PlanView {
        now,
        anchor: spec_anchor(watermark, now),
        inserts: spec_plan_inserts(templates, settings, spec_anchor(watermark, now)),
        failed: spec_failed_titles(templates),
    }
}

/// The store after a plan was applied: swept, then filled, then stamped.
pub open spec fn spec_apply(store: StoreView, plan: PlanView) -> StoreView {
    StoreView {
        rows: spec_insert_all(spec_sweep(store.rows, plan.now), plan.inserts),
        watermark: Some(plan.anchor),
    }
}

/// The store after the tick at `now`.
pub open spec fn spec_tick(
    store: StoreView,
    now: int,
    templates: Seq<TemplateView>,
    settings: Settings,
) -> StoreView {
    spec_apply(store, spec_plan(store.watermark, now, templates, settings))
}

/// Plans one tick. The anchor is the watermark, or `now` where there is none.
/// Every template is expanded from the anchor; a template whose expression
/// does not parse is named in `failed` and does not keep the others from
/// expanding. The watermark to write is the anchor itself, so that later
/// ticks expand from the same anchor.
///
/// Every planned instance is assigned and ends its grace period strictly
/// after it is due. Where no two templates share a title, no two planned
/// instances share a title and due time, so that none of them is ignored on
/// account of another. Where two templates do share a title, the instances
/// of both are planned, and of two that are due together the store keeps the
/// one planned first.
///
/// Fails, before any template is read, exactly where the anchor is no
/// supported timestamp.
pub fn plan_tick(
    watermark: Option<i64>,
    now: i64,
    templates: &Vec<ChoreTemplate>,
    settings: &Settings,
) -> (planned: Result<TickPlan, TickError>)
    ensures
        planned.is_ok() == timestamp_in_range(
            match watermark {
                Some(t) => t as int,
                None => now as int,
            },
        ),
        planned matches Ok(plan) ==> plan@ == spec_plan(
            match watermark {
                Some(t) => Some(t as int),
                None => None,
            },
            now as int,
            view_templates(templates@),
            *settings,
        ),
        planned matches Ok(plan) ==> forall|i: int|
            0 <= i < plan.inserts.len() ==> {
                &&& (#[trigger] plan.inserts[i])@.status == Status::Assigned
                &&& plan.inserts[i]@.overdue_time == plan.inserts[i]@.expected_completion_time
                    + settings.spec_overdue_secs()
                &&& plan.inserts[i]@.overdue_after_expected()
            },
        planned matches Ok(plan) ==> (titles_distinct(view_templates(templates@))
            ==> keys_distinct(plan@.inserts)),
        planned matches Err(e) ==> e == TickError::AnchorOutOfRange,
{
    let anchor = match watermark {
        Some(t) => t,
        None => now,
    };
    if anchor < MIN_TIMESTAMP || anchor > MAX_TIMESTAMP {
        return Err(TickError::AnchorOutOfRange);
    }
    let ghost all = view_templates(templates@);
    let mut inserts: Vec<ChoreInstance> = Vec::new();
    let mut failed: Vec<String> = Vec::new();
    let mut i: usize = 0;
    while i < templates.len()
        invariant
            i <= templates.len(),
            all == view_templates(templates@),
            timestamp_in_range(anchor as int),
            view_instances(inserts@) == spec_plan_inserts(
                all.take(i as int),
                *settings,
                anchor as int,
            ),
            view_strings(failed@) == spec_failed_titles(all.take(i as int)),
        decreases templates.len() - i,
    {
        assert(all.take(i + 1).drop_last() =~= all.take(i as int));
        match expand_template(&templates[i], settings, anchor) {
            Ok(mut instances) => {
                inserts.append(&mut instances);
            },
            Err(_) => {
                failed.push(templates[i].title.clone());
            },
        }
        i = i + 1;
    }
    assert(all.take(templates.len() as int) =~= all);
    proof {
        use_type_invariant(settings);
        assert forall|k: int| 0 <= k < inserts.len() implies {
            &&& (#[trigger] inserts[k])@.status == Status::Assigned
            &&& inserts[k]@.overdue_time == inserts[k]@.expected_completion_time
                + settings.spec_overdue_secs()
            &&& inserts[k]@.overdue_after_expected()
        } by {
            assert(inserts[k]@ == view_instances(inserts@)[k]);
            law_planned_overdue_after_expected(all, *settings, anchor as int, k);
        }
        if titles_distinct(all) {
            law_planned_keys_distinct(all, *settings, anchor as int);
        }
    }
    Ok(TickPlan { now, anchor, inserts, failed })
}

/// What a tick did.
#[derive(Debug)]
pub struct TickReport {
    /// Rows that the sweep turned from assigned to missed.
    pub swept: usize,
    /// Rows that were created.
    pub inserted: usize,
    /// Titles of the templates whose expression does not parse.
    pub failed: Vec<String>,
}

impl Store {
    /// Applies a plan in one step: sweeps at the plan's time, inserts the
    /// plan's instances in order, each unless a row with its title and due
    /// time exists, and writes the plan's anchor as the watermark.
    pub fn apply_tick(&mut self, plan: TickPlan) -> (report: TickReport)
        requires
            old(self).wf(),
        ensures
            final(self).wf(),
            final(self)@ == spec_apply(old(self)@, plan@),
            report.swept == spec_swept_count(old(self)@.rows, plan@.now),
            report.inserted == final(self)@.rows.len() - old(self)@.rows.len(),
            view_strings(report.failed@) == plan@.failed,
    {
        let swept = self.sweep_missed(plan.now);
        let ghost base = self@.rows;
        let ghost wanted = view_instances(plan.inserts@);
        let mut inserted: usize = 0;
        let mut i: usize = 0;
        while i < plan.inserts.len()
            invariant
                i <= plan.inserts.len(),
                self.wf(),
                wanted == view_instances(plan.inserts@),
                base.len() == old(self)@.rows.len(),
                self@.rows == spec_insert_all(base, wanted.take(i as int)),
                self@.rows.len() == base.len() + inserted,
                inserted <= i,
            decreases plan.inserts.len() - i,
        {
            assert(wanted.take(i + 1).drop_last() =~= wanted.take(i as int));
            if self.insert_or_ignore(plan.inserts[i].clone()) {
                inserted = inserted + 1;
            }
            i = i + 1;
        }
        assert(wanted.take(plan.inserts.len() as int) =~= wanted);
        self.write_watermark(plan.anchor);
        TickReport { swept, inserted, failed: plan.failed }
    }
}

/// A tick never loses or duplicates a row: distinct keys stay distinct, and
/// the tick's watermark is its anchor.
pub proof fn law_tick_keeps_keys_distinct(
    store: StoreView,
    now: int,
    templates: Seq<TemplateView>,
    settings: Settings,
)
    requires
        keys_distinct(store.rows),
    ensures
        keys_distinct(spec_tick(store, now, templates, settings).rows),
        spec_tick(store, now, templates, settings).rows.len() >= store.rows.len(),
        spec_tick(store, now, templates, settings).watermark == Some(
            spec_anchor(store.watermark, now),
        ),
{
    let plan = spec_plan(store.watermark, now, templates, settings);
    lemma_sweep_keeps_keys(store.rows, now);
    lemma_insert_all_keeps_rows(spec_sweep(store.rows, now), plan.inserts);
}

/// Idempotence: a second tick over the same templates and settings, at
/// whatever time, finds the watermark that the first one wrote, expands from
/// the same anchor, and creates no row. The rows keep their titles and due
/// times, in the same order, and no two of them share both.
pub proof fn law_second_tick_adds_no_row(
    store: StoreView,
    first_now: int,
    second_now: int,
    templates: Seq<TemplateView>,
    settings: Settings,
)
    requires
        keys_distinct(store.rows),
    ensures
        ({
            let once = spec_tick(store, first_now, templates, settings);
            let twice = spec_tick(once, second_now, templates, settings);
            &&& keys_distinct(once.rows)
            &&& keys_distinct(twice.rows)
            &&& twice.rows.len() == once.rows.len()
            &&& keys_of(twice.rows) == keys_of(once.rows)
            &&& twice.rows == spec_sweep(once.rows, second_now)
            &&& twice.watermark == once.watermark
        }),
{
    let first = spec_plan(store.watermark, first_now, templates, settings);
    let once = spec_tick(store, first_now, templates, settings);
    let second = spec_plan(once.watermark, second_now, templates, settings);
    law_tick_keeps_keys_distinct(store, first_now, templates, settings);
    lemma_insert_all_keeps_rows(spec_sweep(store.rows, first_now), first.inserts);
    lemma_sweep_keeps_keys(once.rows, second_now);
    lemma_insert_all_present(spec_sweep(once.rows, second_now), second.inserts);
}

/// Sweep correctness: after a tick, every row that was there is what the
/// sweep makes of it. A row that was assigned and had expired strictly before
/// the tick's time is missed; a row that was assigned and had not expired is
/// still assigned, whether or not its grace period has passed.
pub proof fn law_tick_sweeps_expired(
    store: StoreView,
    now: int,
    templates: Seq<TemplateView>,
    settings: Settings,
    i: int,
)
    requires
        0 <= i < store.rows.len(),
    ensures
        i < spec_tick(store, now, templates, settings).rows.len(),
        spec_tick(store, now, templates, settings).rows[i] == spec_sweep_row(store.rows[i], now),
        store.rows[i].status == Status::Assigned && store.rows[i].expiration_time < now
            ==> spec_tick(store, now, templates, settings).rows[i] == store.rows[i].with_status(
            Status::Missed,
        ),
        store.rows[i].status == Status::Assigned && store.rows[i].expiration_time >= now
            ==> spec_tick(store, now, templates, settings).rows[i] == store.rows[i],
        store.rows[i].status != Status::Assigned ==> spec_tick(
            store,
            now,
            templates,
            settings,
        ).rows[i] == store.rows[i],
{
    let plan = spec_plan(store.watermark, now, templates, settings);
    lemma_insert_all_keeps_rows(spec_sweep(store.rows, now), plan.inserts);
}

/// Every instance that a plan creates comes from one of the templates: it
/// is one of the instances that this template yields.
pub proof fn lemma_planned_from_template(
    templates: Seq<TemplateView>,
    settings: Settings,
    anchor: int,
    i: int,
) -> (at: (int, int))
    requires
        0 <= i < spec_plan_inserts(templates, settings, anchor).len(),
    ensures
        0 <= at.0 < templates.len(),
        0 <= at.1 < spec_template_instances(templates[at.0], settings, anchor).len(),
        spec_plan_inserts(templates, settings, anchor)[i] == spec_template_instances(
            templates[at.0],
            settings,
            anchor,
        )[at.1],
    decreases templates.len(),
{
    let front = spec_plan_inserts(templates.drop_last(), settings, anchor);
    if i < front.len() {
        lemma_planned_from_template(templates.drop_last(), settings, anchor, i)
    } else {
        (templates.len() - 1, i - front.len())
    }
}

/// Under valid settings every instance that a plan creates is assigned, and
/// ends its grace period the configured number of seconds after it is due,
/// which is strictly after.
pub proof fn law_planned_overdue_after_expected(
    templates: Seq<TemplateView>,
    settings: Settings,
    anchor: int,
    i: int,
)
    requires
        settings.wf(),
        0 <= i < spec_plan_inserts(templates, settings, anchor).len(),
    ensures
        spec_plan_inserts(templates, settings, anchor)[i].overdue_after_expected(),
        spec_plan_inserts(templates, settings, anchor)[i].overdue_time == spec_plan_inserts(
            templates,
            settings,
            anchor,
        )[i].expected_completion_time + settings.spec_overdue_secs(),
        spec_plan_inserts(templates, settings, anchor)[i].status == Status::Assigned,
{
    let at = lemma_planned_from_template(templates, settings, anchor, i);
    law_template_instances_ordered(templates[at.0], settings, anchor);
    law_template_overdue_after_expected(templates[at.0], settings, anchor, at.1);
}

/// Where no two templates share a title, no two instances of a plan share a
/// title and due time: instances of one template are due at different times,
/// and instances of different templates carry different titles.
pub proof fn law_planned_keys_distinct(
    templates: Seq<TemplateView>,
    settings: Settings,
    anchor: int,
)
    requires
        titles_distinct(templates),
    ensures
        keys_distinct(spec_plan_inserts(templates, settings, anchor)),
    decreases templates.len(),
{
    if templates.len() > 0 {
        let before = templates.drop_last();
        let front = spec_plan_inserts(before, settings, anchor);
        let back = spec_template_instances(templates.last(), settings, anchor);
        let all = spec_plan_inserts(templates, settings, anchor);
        assert forall|a: int, b: int| 0 <= a < b < before.len() implies (
        #[trigger] before[a]).title != (#[trigger] before[b]).title by {
            assert(before[a] == templates[a] && before[b] == templates[b]);
        }
        law_planned_keys_distinct(before, settings, anchor);
        law_template_instances_ordered(templates.last(), settings, anchor);
        assert forall|i: int, j: int| 0 <= i < j < all.len() implies (#[trigger] all[i]).key() != (
        #[trigger] all[j]).key() by {
            if j < front.len() {
                assert(front[i].key() != front[j].key());
            } else if i < front.len() {
                let at = lemma_planned_from_template(before, settings, anchor, i);
                law_template_instances_ordered(before[at.0], settings, anchor);
                assert(before[at.0] == templates[at.0]);
                assert(all[j] == back[j - front.len()]);
                assert(templates[at.0].title != templates[templates.len() - 1].title);
            } else {
                assert(all[i] == back[i - front.len()]);
                assert(all[j] == back[j - front.len()]);
            }
        }
    }
}

/// Creation under valid settings: every row that a tick adds to the store is
/// assigned and ends its grace period strictly after it is due.
pub proof fn law_tick_creates_well_formed_rows(
    store: StoreView,
    now: int,
    templates: Seq<TemplateView>,
    settings: Settings,
    i: int,
)
    requires
        settings.wf(),
        store.rows.len() <= i < spec_tick(store, now, templates, settings).rows.len(),
    ensures
        spec_tick(store, now, templates, settings).rows[i].overdue_after_expected(),
        spec_tick(store, now, templates, settings).rows[i].overdue_time == spec_tick(
            store,
            now,
            templates,
            settings,
        ).rows[i].expected_completion_time + settings.spec_overdue_secs(),
        spec_tick(store, now, templates, settings).rows[i].status == Status::Assigned,
{
    let plan = spec_plan(store.watermark, now, templates, settings);
    let row = spec_tick(store, now, templates, settings).rows[i];
    lemma_insert_all_adds_instances(spec_sweep(store.rows, now), plan.inserts);
    let k = plan.inserts.index_of(row);
    law_planned_overdue_after_expected(templates, settings, plan.anchor, k);
}

/// What came of asking the scheduler for a tick.
#[derive(Debug)]
pub enum TickOutcome {
    /// The scheduler was cancelled; nothing was done.
    Cancelled,
    /// The tick could not be planned; nothing was changed.
    Failed(TickError),
    /// The tick was applied.
    Ran(TickReport),
}

/// The generator as an object that is driven one tick at a time: it owns the
/// store, the templates and the settings, counts the ticks it has applied,
/// and does nothing more once it is cancelled.
pub struct Scheduler {
    store: Store,
    templates: Vec<ChoreTemplate>,
    settings: Settings,
    ticks: u64,
    cancelled: bool,
}

impl Scheduler {
    /// Whether the scheduler is well formed: its store and its settings are,
    /// and no two of its templates share a title.
    pub closed spec fn wf(&self) -> bool {
        &&& self.store.wf()
        &&& self.settings.wf()
        &&& titles_distinct(view_templates(self.templates@))
    }

    /// What a well-formed scheduler holds.
    pub proof fn lemma_wf(&self)
        requires
            self.wf(),
        ensures
            keys_distinct(self.spec_store().rows),
            self.spec_settings().wf(),
            titles_distinct(self.spec_templates()),
    {
    }

    /// What the store holds.
    pub closed spec fn spec_store(&self) -> StoreView {
        self.store@
    }

    /// The templates, in their order.
    pub closed spec fn spec_templates(&self) -> Seq<TemplateView> {
        view_templates(self.templates@)
    }

    /// The settings.
    pub closed spec fn spec_settings(&self) -> Settings {
        self.settings
    }

    /// How many ticks were applied, up to the largest count that fits.
    pub closed spec fn spec_ticks(&self) -> int {
        self.ticks as int
    }

    /// Whether the scheduler was cancelled.
    pub closed spec fn spec_cancelled(&self) -> bool {
        self.cancelled
    }

    /// A scheduler over an empty store. Fails with `DuplicateTitle` exactly
    /// where two of the templates share a title.
    pub fn new(templates: Vec<ChoreTemplate>, settings: Settings) -> (made: Result<
        Scheduler,
        ConfigError,
    >)
        ensures
            made.is_ok() == titles_distinct(view_templates(templates@)),
            made matches Ok(scheduler) ==> {
                &&& scheduler.wf()
                &&& scheduler.spec_store().rows == Seq::<InstanceView>::empty()
                &&& scheduler.spec_store().watermark is None
                &&& scheduler.spec_templates() == view_templates(templates@)
                &&& scheduler.spec_settings() == settings
                &&& scheduler.spec_ticks() == 0
                &&& !scheduler.spec_cancelled()
            },
            made matches Err(e) ==> e == ConfigError::DuplicateTitle,
    {
        Scheduler::with_store(Store::new(), templates, settings)
    }

    /// A scheduler over a store that holds rows already. Fails with
    /// `DuplicateTitle` exactly where two of the templates share a title.
    pub fn with_store(store: Store, templates: Vec<ChoreTemplate>, settings: Settings) -> (made:
        Result<Scheduler, ConfigError>)
        requires
            store.wf(),
        ensures
            made.is_ok() == titles_distinct(view_templates(templates@)),
            made matches Ok(scheduler) ==> {
                &&& scheduler.wf()
                &&& scheduler.spec_store() == store@
                &&& scheduler.spec_templates() == view_templates(templates@)
                &&& scheduler.spec_settings() == settings
                &&& scheduler.spec_ticks() == 0
                &&& !scheduler.spec_cancelled()
            },
            made matches Err(e) ==> e == ConfigError::DuplicateTitle,
    {
        if !titles_are_distinct(&templates) {
            return Err(ConfigError::DuplicateTitle);
        }
        proof {
            use_type_invariant(&settings);
        }
        Ok(Scheduler { store, templates, settings, ticks: 0, cancelled: false })
    }

    /// Runs one tick at time `now`: plans it from the store's watermark and
    /// applies the plan to the store. A cancelled scheduler does nothing, and
    /// a tick that cannot be planned changes nothing; neither is counted.
    /// Every row that a tick creates is assigned and ends its grace period
    /// strictly after it is due.
    pub fn tick(&mut self, now: i64) -> (outcome: TickOutcome)
        requires
            old(self).wf(),
        ensures
            final(self).wf(),
            final(self).spec_templates() == old(self).spec_templates(),
            final(self).spec_settings() == old(self).spec_settings(),
            final(self).spec_cancelled() == old(self).spec_cancelled(),
            match outcome {
                TickOutcome::Cancelled => {
                    &&& old(self).spec_cancelled()
                    &&& final(self).spec_store() == old(self).spec_store()
                    &&& final(self).spec_ticks() == old(self).spec_ticks()
                },
                TickOutcome::Failed(e) => {
                    &&& !old(self).spec_cancelled()
                    &&& e == TickError::AnchorOutOfRange
                    &&& !timestamp_in_range(
                        spec_anchor(old(self).spec_store().watermark, now as int),
                    )
                    &&& final(self).spec_store() == old(self).spec_store()
                    &&& final(self).spec_ticks() == old(self).spec_ticks()
                },
                TickOutcome::Ran(report) => {
                    &&& !old(self).spec_cancelled()
                    &&& timestamp_in_range(
                        spec_anchor(old(self).spec_store().watermark, now as int),
                    )
                    &&& final(self).spec_store() == spec_tick(
                        old(self).spec_store(),
                        now as int,
                        old(self).spec_templates(),
                        old(self).spec_settings(),
                    )
                    &&& final(self).spec_ticks() == if old(self).spec_ticks() < u64::MAX {
                        old(self).spec_ticks() + 1
                    } else {
                        old(self).spec_ticks()
                    }
                    &&& report.swept == spec_swept_count(
                        old(self).spec_store().rows,
                        now as int,
                    )
                    &&& report.inserted == final(self).spec_store().rows.len() - old(
                        self,
                    ).spec_store().rows.len()
                    &&& view_strings(report.failed@) == spec_failed_titles(
                        old(self).spec_templates(),
                    )
                    &&& forall|i: int|
                        #![trigger final(self).spec_store().rows[i]]
                        old(self).spec_store().rows.len() <= i
                            < final(self).spec_store().rows.len() ==> {
                            &&& final(self).spec_store().rows[i].status == Status::Assigned
                            &&& final(self).spec_store().rows[i].overdue_after_expected()
                        }
                },
            },
    {
        if self.cancelled {
            return TickOutcome::Cancelled;
        }
        match plan_tick(self.store.watermark(), now, &self.templates, &self.settings) {
            Err(e) => TickOutcome::Failed(e),
            Ok(plan) => {
                proof {
                    let before = self.store@;
                    let templates = view_templates(self.templates@);
                    let after = spec_tick(before, now as int, templates, self.settings);
                    assert forall|i: int| before.rows.len() <= i < after.rows.len() implies {
                        &&& (#[trigger] after.rows[i]).status == Status::Assigned
                        &&& after.rows[i].overdue_after_expected()
                    } by {
                        law_tick_creates_well_formed_rows(
                            before,
                            now as int,
                            templates,
                            self.settings,
                            i,
                        );
                    }
                }
                let report = self.store.apply_tick(plan);
                if self.ticks < u64::MAX {
                    self.ticks = self.ticks + 1;
                }
                TickOutcome::Ran(report)
            },
        }
    }

    /// Cancels the scheduler: from now on `tick` does nothing.
    pub fn cancel(&mut self)
        ensures
            final(self).spec_cancelled(),
            final(self).wf() == old(self).wf(),
            final(self).spec_store() == old(self).spec_store(),
            final(self).spec_templates() == old(self).spec_templates(),
            final(self).spec_settings() == old(self).spec_settings(),
            final(self).spec_ticks() == old(self).spec_ticks(),
    {
        self.cancelled = true;
    }

    /// Marks an instance completed in the scheduler's store.
    pub fn complete(&mut self, title: &String, expected_completion_time: i64) -> (outcome:
        CompletionOutcome)
        requires
            old(self).wf(),
        ensures
            final(self).wf(),
            final(self).spec_store().rows == spec_complete(
                old(self).spec_store().rows,
                (title@, expected_completion_time as int),
            ),
            final(self).spec_store().watermark == old(self).spec_store().watermark,
            (outcome == CompletionOutcome::Completed) == contains_key(
                old(self).spec_store().rows,
                (title@, expected_completion_time as int),
            ),
            final(self).spec_templates() == old(self).spec_templates(),
            final(self).spec_settings() == old(self).spec_settings(),
            final(self).spec_ticks() == old(self).spec_ticks(),
            final(self).spec_cancelled() == old(self).spec_cancelled(),
    {
        self.store.complete(title, expected_completion_time)
    }

    /// The store.
    pub fn store(&self) -> (store: &Store)
        ensures
            store@ == self.spec_store(),
            self.wf() ==> store.wf(),
    {
        &self.store
    }

    /// The templates, in their order.
    pub fn templates(&self) -> (templates: &Vec<ChoreTemplate>)
        ensures
            view_templates(templates@) == self.spec_templates(),
            self.wf() ==> titles_distinct(view_templates(templates@)),
    {
        &self.templates
    }

    /// The settings.
    pub fn settings(&self) -> (settings: Settings)
        ensures
            settings == self.spec_settings(),
    {
        self.settings
    }

    /// How many ticks were applied.
    pub fn ticks(&self) -> (ticks: u64)
        ensures
            ticks == self.spec_ticks(),
    {
        self.ticks
    }

    /// Whether the scheduler was cancelled.
    pub fn is_cancelled(&self) -> (cancelled: bool)
        ensures
            cancelled == self.spec_cancelled(),
    {
        self.cancelled
    }
}

} // verus!
