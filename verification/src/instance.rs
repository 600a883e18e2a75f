//! One scheduled occurrence of a chore.

use vstd::prelude::*;
use crate::status::Status;

verus! {

/// What an instance holds, as mathematical values.
pub struct InstanceView {
    pub title: Seq<char>,
    pub expected_completion_time: int,
    pub overdue_time: int,
    pub expiration_time: int,
    pub status: Status,
}

impl InstanceView {
    /// The pair that identifies an instance: its title and its due time.
    pub open spec fn key(self) -> (Seq<char>, int) {
        (self.title, self.expected_completion_time)
    }

    /// Whether the grace period ends after the due time.
    pub open spec fn overdue_after_expected(self) -> bool {
        self.overdue_time > self.expected_completion_time
    }

    /// The same instance with another status.
    pub open spec fn with_status(self, status: Status) -> InstanceView {
        InstanceView { status, ..self }
    }
}

/// One scheduled occurrence of a chore: when it is due, when its grace period
/// ends, when it expires for good, and where it stands in its lifecycle.
#[derive(Debug)]
pub struct ChoreInstance {
    pub title: String,
    pub expected_completion_time: i64,
    pub overdue_time: i64,
    pub expiration_time: i64,
    pub status: Status,
}

impl View for ChoreInstance {
    type V = InstanceView;

    open spec fn view(&self) -> InstanceView {
        InstanceView {
            title: self.title@,
            expected_completion_time: self.expected_completion_time as int,
            overdue_time: self.overdue_time as int,
            expiration_time: self.expiration_time as int,
            status: self.status,
        }
    }
}

/// The mathematical values of a run of instances, in order.
pub open spec fn view_instances(instances: Seq<ChoreInstance>) -> Seq<InstanceView> {
    Seq::new(instances.len(), |i: int| instances[i]@)
}

impl Clone for ChoreInstance {
    fn clone(&self) -> (copy: ChoreInstance)
        ensures
            copy@ == self@,
    {
        ChoreInstance {
            title: self.title.clone(),
            expected_completion_time: self.expected_completion_time,
            overdue_time: self.overdue_time,
            expiration_time: self.expiration_time,
            status: self.status,
        }
    }
}

impl ChoreInstance {
    /// Whether this instance is the one identified by `title` and
    /// `expected_completion_time`.
    pub fn has_key(&self, title: &String, expected_completion_time: i64) -> (same: bool)
        ensures
            same == (self@.key() == (title@, expected_completion_time as int)),
    {
        self.expected_completion_time == expected_completion_time && self.title == *title
    }
}

} // verus!
