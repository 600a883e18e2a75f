//! The store of chore instances and the watermark: rows identified by title
//! and due time, never deleted, changed only in their status.

use vstd::prelude::*;
use crate::instance::{view_instances, ChoreInstance, InstanceView};
use crate::status::Status;

verus! {

/// Whether no two rows share a title and due time.
pub open spec fn keys_distinct(rows: Seq<InstanceView>) -> bool {
    forall|i: int, j: int|
        0 <= i < j < rows.len() ==> (#[trigger] rows[i]).key() != (#[trigger] rows[j]).key()
}

/// Whether some row has this title and due time.
pub open spec fn contains_key(rows: Seq<InstanceView>, key: (Seq<char>, int)) -> bool {
    exists|i: int| 0 <= i < rows.len() && (#[trigger] rows[i]).key() == key
}

/// The titles and due times of the rows, in order.
pub open spec fn keys_of(rows: Seq<InstanceView>) -> Seq<(Seq<char>, int)> {
    Seq::new(rows.len(), |i: int| rows[i].key())
}

/// The rows after an insert that leaves an existing row alone.
pub open spec fn spec_insert_or_ignore(rows: Seq<InstanceView>, instance: InstanceView) -> Seq<
    InstanceView,
> {
    if contains_key(rows, instance.key()) {
        rows
    } else {
        rows.push(instance)
    }
}

/// The rows after inserting each instance in turn, each insert leaving an
/// existing row alone.
pub open spec fn spec_insert_all(rows: Seq<InstanceView>, instances: Seq<InstanceView>) -> Seq<
    InstanceView,
>
    decreases instances.len(),
{
    if instances.len() == 0 {
        rows
    } else {
        spec_insert_or_ignore(spec_insert_all(rows, instances.drop_last()), instances.last())
    }
}

/// A row after the sweep at time `now`: missed where it was assigned and had
/// expired strictly before `now`, and unchanged otherwise.
pub open spec fn spec_sweep_row(row: InstanceView, now: int) -> InstanceView {
    if row.status == Status::Assigned && row.expiration_time < now {
        row.with_status(Status::Missed)
    } else {
        row
    }
}

/// The rows after the sweep at time `now`.
pub open spec fn spec_sweep(rows: Seq<InstanceView>, now: int) -> Seq<InstanceView> {
    Seq::new(rows.len(), |i: int| spec_sweep_row(rows[i], now))
}

/// How many rows the sweep at time `now` changes.
pub open spec fn spec_swept_count(rows: Seq<InstanceView>, now: int) -> nat
    decreases rows.len(),
{
    if rows.len() == 0 {
        0
    } else {
        spec_swept_count(rows.drop_last(), now) + if spec_sweep_row(rows.last(), now)
            != rows.last() {
            1nat
        } else {
            0nat
        }
    }
}

/// The rows after the instance with this key, if any, was completed.
pub open spec fn spec_complete(rows: Seq<InstanceView>, key: (Seq<char>, int)) -> Seq<
    InstanceView,
> {
    Seq::new(
        rows.len(),
        |i: int|
            if rows[i].key() == key {
                rows[i].with_status(Status::Completed)
            } else {
                rows[i]
            },
    )
}

/// What came of completing an instance.
#[derive(Clone, Copy, Debug, PartialEq, Eq, Structural)]
pub enum CompletionOutcome {
    /// The instance exists and is now completed.
    Completed,
    /// No instance has this title and due time; nothing changed.
    NotFound,
}

/// What came of a completion that storage carried out itself, told from the
/// number of rows it changed: `NotFound` exactly where it changed none.
pub fn outcome_of_update(rows_changed: u64) -> (outcome: CompletionOutcome)
    ensures
        (outcome == CompletionOutcome::NotFound) == (rows_changed == 0),
        (outcome == CompletionOutcome::Completed) == (rows_changed > 0),
{
    if rows_changed == 0 {
        CompletionOutcome::NotFound
    } else {
        CompletionOutcome::Completed
    }
}

/// What a store holds, as mathematical values.
pub struct StoreView {
    pub rows: Seq<InstanceView>,
    pub watermark: Option<int>,
}

/// The instances created so far, in the order of their creation, and the
/// watermark. No two rows share a title and due time.
pub struct Store {
    rows: Vec<ChoreInstance>,
    watermark: Option<i64>,
}

impl View for Store {
    type V = StoreView;

    closed spec fn view(&self) -> StoreView {
        StoreView {
            rows: view_instances(self.rows@),
            watermark: match self.watermark {
                Some(t) => Some(t as int),
                None => None,
            },
        }
    }
}

impl Store {
    /// Whether the store is well formed: no two rows share a title and due
    /// time.
    pub open spec fn wf(&self) -> bool {
        keys_distinct(self@.rows)
    }

    /// An empty store without a watermark.
    pub fn new() -> (store: Store)
        ensures
            store.wf(),
            store@.rows == Seq::<InstanceView>::empty(),
            store@.watermark is None,
    {
        let store = Store { rows: Vec::new(), watermark: None };
        store
    }

    /// The rows, in the order of their creation.
    pub fn rows(&self) -> (rows: &Vec<ChoreInstance>)
        ensures
            view_instances(rows@) == self@.rows,
    {
        &self.rows
    }

    /// The number of rows.
    pub fn len(&self) -> (n: usize)
        ensures
            n == self@.rows.len(),
    {
        self.rows.len()
    }

    /// The watermark, if one was written.
    pub fn watermark(&self) -> (watermark: Option<i64>)
        ensures
            match watermark {
                Some(t) => self@.watermark == Some(t as int),
                None => self@.watermark is None,
            },
    {
        self.watermark
    }

    /// Writes the watermark, replacing the one there was.
    pub fn write_watermark(&mut self, timestamp: i64)
        ensures
            final(self)@.rows == old(self)@.rows,
            final(self)@.watermark == Some(timestamp as int),
    {
        self.watermark = Some(timestamp);
    }

    /// Whether a row has this title and due time.
    pub fn contains(&self, title: &String, expected_completion_time: i64) -> (found: bool)
        ensures
            found == contains_key(self@.rows, (title@, expected_completion_time as int)),
    {
        let mut i: usize = 0;
        while i < self.rows.len()
            invariant
                i <= self.rows.len(),
                forall|k: int|
                    0 <= k < i ==> (#[trigger] self@.rows[k]).key() != (
                        title@,
                        expected_completion_time as int,
                    ),
            decreases self.rows.len() - i,
        {
            if self.rows[i].has_key(title, expected_completion_time) {
                assert(self@.rows[i as int].key() == (title@, expected_completion_time as int));
                return true;
            }
            i = i + 1;
        }
        false
    }

    /// Inserts an instance unless a row with its title and due time exists;
    /// such a row is left as it is. Returns whether the instance was inserted.
    pub fn insert_or_ignore(&mut self, instance: ChoreInstance) -> (inserted: bool)
        requires
            old(self).wf(),
        ensures
            final(self).wf(),
            final(self)@.rows == spec_insert_or_ignore(old(self)@.rows, instance@),
            final(self)@.watermark == old(self)@.watermark,
            inserted == !contains_key(old(self)@.rows, instance@.key()),
    {
        if self.contains(&instance.title, instance.expected_completion_time) {
            false
        } else {
            let ghost before = self@.rows;
            self.rows.push(instance);
            assert(self@.rows =~= before.push(instance@));
            true
        }
    }

    /// Sweeps expired instances: every assigned row whose expiration time lies
    /// strictly before `now` becomes missed. Nothing else changes: a row that
    /// is only past its grace period stays assigned, and completed and missed
    /// rows stay what they are. Returns how many rows changed.
    pub fn sweep_missed(&mut self, now: i64) -> (swept: usize)
        requires
            old(self).wf(),
        ensures
            final(self).wf(),
            final(self)@.rows == spec_sweep(old(self)@.rows, now as int),
            final(self)@.watermark == old(self)@.watermark,
            swept == spec_swept_count(old(self)@.rows, now as int),
    {
        let ghost before = self@.rows;
        let mut swept: usize = 0;
        let mut i: usize = 0;
        while i < self.rows.len()
            invariant
                i <= self.rows.len(),
                self@.rows.len() == before.len(),
                self@.watermark == old(self)@.watermark,
                swept <= i,
                swept == spec_swept_count(before.take(i as int), now as int),
                forall|k: int|
                    0 <= k < i ==> #[trigger] self@.rows[k] == spec_sweep_row(
                        before[k],
                        now as int,
                    ),
                forall|k: int| i <= k < before.len() ==> #[trigger] self@.rows[k] == before[k],
            decreases self.rows.len() - i,
        {
            assert(before.take(i + 1).drop_last() =~= before.take(i as int));
            if self.rows[i].status == Status::Assigned && self.rows[i].expiration_time < now {
                let ghost prior = self@.rows;
                self.rows[i].status = Status::Missed;
                assert(self@.rows[i as int] == prior[i as int].with_status(Status::Missed));
                assert forall|k: int| 0 <= k < before.len() && k != i implies (
                #[trigger] self@.rows[k]) == prior[k] by {}
                swept = swept + 1;
            }
            i = i + 1;
        }
        assert(before.take(before.len() as int) =~= before);
        proof {
            lemma_sweep_keeps_keys(before, now as int);
        }
        swept
    }

    /// Marks the instance with this title and due time completed, whatever
    /// its status was. Reports `NotFound`, and changes nothing, where no row
    /// has this title and due time.
    pub fn complete(&mut self, title: &String, expected_completion_time: i64) -> (outcome:
        CompletionOutcome)
        requires
            old(self).wf(),
        ensures
            final(self).wf(),
            final(self)@.rows == spec_complete(
                old(self)@.rows,
                (title@, expected_completion_time as int),
            ),
            final(self)@.watermark == old(self)@.watermark,
            (outcome == CompletionOutcome::Completed) == contains_key(
                old(self)@.rows,
                (title@, expected_completion_time as int),
            ),
            outcome == CompletionOutcome::NotFound ==> final(self)@.rows == old(self)@.rows,
    {
        let ghost before = self@.rows;
        let ghost key = (title@, expected_completion_time as int);
        let mut i: usize = 0;
        while i < self.rows.len()
            invariant
                i <= self.rows.len(),
                self@.rows == before,
                before == old(self)@.rows,
                self@.watermark == old(self)@.watermark,
                key == (title@, expected_completion_time as int),
                keys_distinct(before),
                forall|k: int| 0 <= k < i ==> (#[trigger] before[k]).key() != key,
            decreases self.rows.len() - i,
        {
            if self.rows[i].has_key(title, expected_completion_time) {
                self.rows[i].status = Status::Completed;
                assert forall|k: int| 0 <= k < before.len() && k != i implies (
                #[trigger] self@.rows[k]) == before[k] by {}
                assert(before[i as int].key() == key);
                proof {
                    lemma_complete_keeps_keys(before, key);
                }
                return CompletionOutcome::Completed;
            }
            i = i + 1;
        }
        CompletionOutcome::NotFound
    }
}

/// The sweep changes no title and no due time, so distinct keys stay
/// distinct.
pub proof fn lemma_sweep_keeps_keys(rows: Seq<InstanceView>, now: int)
    ensures
        keys_of(spec_sweep(rows, now)) == keys_of(rows),
        keys_distinct(rows) ==> keys_distinct(spec_sweep(rows, now)),
        forall|key: (Seq<char>, int)|
            contains_key(spec_sweep(rows, now), key) == contains_key(rows, key),
{
    let swept = spec_sweep(rows, now);
    assert forall|key: (Seq<char>, int)|
        contains_key(swept, key) == contains_key(rows, key) by {
        if contains_key(rows, key) {
            let i = choose|i: int| 0 <= i < rows.len() && (#[trigger] rows[i]).key() == key;
            assert(swept[i].key() == key);
        }
    }
}

/// Completion changes no title and no due time, so distinct keys stay
/// distinct.
pub proof fn lemma_complete_keeps_keys(rows: Seq<InstanceView>, key: (Seq<char>, int))
    ensures
        keys_of(spec_complete(rows, key)) == keys_of(rows),
        keys_distinct(rows) ==> keys_distinct(spec_complete(rows, key)),
{
}

/// What inserting a run of instances does to the rows, whatever the run: the
/// rows that were there stay where they were and as they were, every inserted
/// key is present afterwards, no key is lost, and distinct keys stay distinct.
pub proof fn lemma_insert_all_keeps_rows(rows: Seq<InstanceView>, instances: Seq<InstanceView>)
    ensures
        spec_insert_all(rows, instances).len() >= rows.len(),
        forall|i: int|
            0 <= i < rows.len() ==> #[trigger] spec_insert_all(rows, instances)[i] == rows[i],
        forall|k: int|
            0 <= k < instances.len() ==> contains_key(
                spec_insert_all(rows, instances),
                (#[trigger] instances[k]).key(),
            ),
        forall|key: (Seq<char>, int)|
            contains_key(rows, key) ==> contains_key(spec_insert_all(rows, instances), key),
        keys_distinct(rows) ==> keys_distinct(spec_insert_all(rows, instances)),
    decreases instances.len(),
{
    let all = spec_insert_all(rows, instances);
    if instances.len() > 0 {
        let front = instances.drop_last();
        let last = instances.last();
        let mid = spec_insert_all(rows, front);
        lemma_insert_all_keeps_rows(rows, front);
        if !contains_key(mid, last.key()) {
            assert(all[mid.len() as int].key() == last.key());
        }
        assert forall|key: (Seq<char>, int)| contains_key(mid, key) implies contains_key(
            all,
            key,
        ) by {
            let i = choose|i: int| 0 <= i < mid.len() && (#[trigger] mid[i]).key() == key;
            assert(all[i].key() == key);
        }
        assert forall|k: int| 0 <= k < instances.len() implies contains_key(
            all,
            (#[trigger] instances[k]).key(),
        ) by {
            if k < front.len() {
                assert(contains_key(mid, front[k].key()));
            }
        }
    }
}

/// Every row that inserting a run of instances adds is one of the instances.
pub proof fn lemma_insert_all_adds_instances(rows: Seq<InstanceView>, instances: Seq<InstanceView>)
    ensures
        forall|i: int|
            rows.len() <= i < spec_insert_all(rows, instances).len() ==> instances.contains(
                #[trigger] spec_insert_all(rows, instances)[i],
            ),
    decreases instances.len(),
{
    if instances.len() > 0 {
        let front = instances.drop_last();
        let mid = spec_insert_all(rows, front);
        let all = spec_insert_all(rows, instances);
        lemma_insert_all_adds_instances(rows, front);
        lemma_insert_all_keeps_rows(rows, front);
        assert forall|i: int| rows.len() <= i < all.len() implies instances.contains(
            #[trigger] all[i],
        ) by {
            if i < mid.len() {
                let k = front.index_of(mid[i]);
                assert(instances[k] == all[i]);
            } else {
                assert(instances[instances.len() - 1] == all[i]);
            }
        }
    }
}

/// Inserting instances whose keys are all present changes nothing.
pub proof fn lemma_insert_all_present(rows: Seq<InstanceView>, instances: Seq<InstanceView>)
    requires
        forall|k: int|
            0 <= k < instances.len() ==> contains_key(rows, (#[trigger] instances[k]).key()),
    ensures
        spec_insert_all(rows, instances) == rows,
    decreases instances.len(),
{
    if instances.len() > 0 {
        lemma_insert_all_present(rows, instances.drop_last());
    }
}

} // verus!
