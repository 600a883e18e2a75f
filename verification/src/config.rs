//! Configuration: chore templates and the durations that drive a tick.

use vstd::prelude::*;
use crate::zone::UtcOffset;

verus! {

/// Longest supported duration, in seconds: what fits in a signed 64-bit count
/// of milliseconds.
pub const MAX_DURATION_SECS: u64 = 9_223_372_036_854_775;

/// One day in seconds: how far ahead instances are created by default.
pub fn one_day() -> (secs: u64)
    ensures
        secs == 86_400,
{
    86_400
}

/// One hour in seconds: the default pause between two ticks.
pub fn one_hour() -> (secs: u64)
    ensures
        secs == 3_600,
{
    3_600
}

/// The port served where the configuration names none.
pub fn default_port() -> (port: u16)
    ensures
        port == 4040,
{
    4040
}

/// Why a configuration was refused.
#[derive(Clone, Copy, Debug, PartialEq, Eq, Structural)]
pub enum ConfigError {
    /// The grace period is zero: an instance would be overdue the moment it
    /// is due.
    GracePeriodZero,
    /// A duration is longer than `MAX_DURATION_SECS`.
    DurationOutOfRange,
    /// Two templates share a title.
    DuplicateTitle,
}

/// The durations that drive a tick, and the offset at which recurrences are
/// read.
#[derive(Clone, Copy, Debug)]
pub struct Settings {
    overdue_secs: i64,
    lookahead_secs: i64,
    check_interval_secs: u64,
    zone: UtcOffset,
}

impl Settings {
    /// Whether the settings are valid: the grace period is at least one
    /// second, and neither it nor the lookahead is longer than
    /// `MAX_DURATION_SECS`. Every value that `new` makes is valid.
    #[verifier::type_invariant]
    pub closed spec fn wf(self) -> bool {
        &&& 1 <= self.overdue_secs <= MAX_DURATION_SECS
        &&& 0 <= self.lookahead_secs <= MAX_DURATION_SECS
    }

    /// The bounds that valid settings keep.
    pub proof fn lemma_wf_bounds(self)
        requires
            self.wf(),
        ensures
            1 <= self.spec_overdue_secs() <= MAX_DURATION_SECS,
            0 <= self.spec_lookahead_secs() <= MAX_DURATION_SECS,
    {
    }

    /// Grace period after the due time, in seconds.
    pub closed spec fn spec_overdue_secs(self) -> int {
        self.overdue_secs as int
    }

    /// How far past the anchor instances are created, in seconds.
    pub closed spec fn spec_lookahead_secs(self) -> int {
        self.lookahead_secs as int
    }

    /// Pause between two ticks, in seconds.
    pub closed spec fn spec_check_interval_secs(self) -> int {
        self.check_interval_secs as int
    }

    /// Offset from UTC at which recurrences are read.
    pub closed spec fn spec_zone(self) -> UtcOffset {
        self.zone
    }

    /// Settings from durations in seconds. The grace period must be at least
    /// one second, so that every instance is overdue strictly after it is
    /// due: a grace period of zero fails with `GracePeriodZero`. Otherwise a
    /// grace period or a lookahead longer than `MAX_DURATION_SECS` fails with
    /// `DurationOutOfRange`. The pause between ticks is not bounded.
    pub fn new(overdue_secs: u64, lookahead_secs: u64, check_interval_secs: u64, zone: UtcOffset)
        -> (made: Result<Settings, ConfigError>)
        ensures
            made.is_ok() == (1 <= overdue_secs <= MAX_DURATION_SECS && lookahead_secs
                <= MAX_DURATION_SECS),
            made matches Ok(settings) ==> {
                &&& settings.wf()
                &&& settings.spec_overdue_secs() == overdue_secs
                &&& settings.spec_lookahead_secs() == lookahead_secs
                &&& settings.spec_check_interval_secs() == check_interval_secs
                &&& settings.spec_zone() == zone
            },
            made matches Err(e) ==> e == if overdue_secs == 0 {
                ConfigError::GracePeriodZero
            } else {
                ConfigError::DurationOutOfRange
            },
    {
        if overdue_secs == 0 {
            return Err(ConfigError::GracePeriodZero);
        }
        if overdue_secs > MAX_DURATION_SECS || lookahead_secs > MAX_DURATION_SECS {
            return Err(ConfigError::DurationOutOfRange);
        }
        Ok(
            Settings {
                overdue_secs: overdue_secs as i64,
                lookahead_secs: lookahead_secs as i64,
                check_interval_secs,
                zone,
            },
        )
    }

    /// Settings with the default lookahead of one day and the default pause
    /// of one hour. Fails as `new` does: with `GracePeriodZero` for a grace
    /// period of zero, with `DurationOutOfRange` for one that is too long.
    pub fn with_defaults(overdue_secs: u64, zone: UtcOffset) -> (made: Result<
        Settings,
        ConfigError,
    >)
        ensures
            made.is_ok() == (1 <= overdue_secs <= MAX_DURATION_SECS),
            made matches Ok(settings) ==> {
                &&& settings.wf()
                &&& settings.spec_overdue_secs() == overdue_secs
                &&& settings.spec_lookahead_secs() == 86_400
                &&& settings.spec_check_interval_secs() == 3_600
                &&& settings.spec_zone() == zone
            },
            made matches Err(e) ==> e == if overdue_secs == 0 {
                ConfigError::GracePeriodZero
            } else {
                ConfigError::DurationOutOfRange
            },
    {
        Settings::new(overdue_secs, one_day(), one_hour(), zone)
    }

    /// Grace period after the due time, in seconds: at least one.
    pub fn overdue_secs(&self) -> (secs: i64)
        ensures
            self.wf(),
            secs == self.spec_overdue_secs(),
            1 <= secs <= MAX_DURATION_SECS,
    {
        proof {
            use_type_invariant(self);
        }
        self.overdue_secs
    }

    /// How far past the anchor instances are created, in seconds.
    pub fn lookahead_secs(&self) -> (secs: i64)
        ensures
            secs == self.spec_lookahead_secs(),
            0 <= secs <= MAX_DURATION_SECS,
    {
        proof {
            use_type_invariant(self);
        }
        self.lookahead_secs
    }

    /// Pause between two ticks, in seconds.
    pub fn check_interval_secs(&self) -> (secs: u64)
        ensures
            secs == self.spec_check_interval_secs(),
    {
        self.check_interval_secs
    }

    /// Offset from UTC at which recurrences are read.
    pub fn zone(&self) -> (zone: UtcOffset)
        ensures
            zone == self.spec_zone(),
    {
        self.zone
    }
}

/// What a template holds, as mathematical values.
pub struct TemplateView {
    pub title: Seq<char>,
    pub description: Seq<char>,
    pub recurrence_expression: Seq<char>,
}

/// A recurring chore as configured: its title, a description for readers, and
/// the expression that says when it recurs.
#[derive(Debug)]
pub struct ChoreTemplate {
    pub title: String,
    pub description: String,
    pub recurrence_expression: String,
}

impl View for ChoreTemplate {
    type V = TemplateView;

    open spec fn view(&self) -> TemplateView {
        TemplateView {
            title: self.title@,
            description: self.description@,
            recurrence_expression: self.recurrence_expression@,
        }
    }
}

/// The mathematical values of a run of templates, in order.
pub open spec fn view_templates(templates: Seq<ChoreTemplate>) -> Seq<TemplateView> {
    Seq::new(templates.len(), |i: int| templates[i]@)
}

/// Whether no two templates share a title: the title is the key under which
/// a template is known.
pub open spec fn titles_distinct(templates: Seq<TemplateView>) -> bool {
    forall|i: int, j: int|
        0 <= i < j < templates.len() ==> (#[trigger] templates[i]).title != (
        #[trigger] templates[j]).title
}

/// Index of the first template with this title, if there is one.
pub open spec fn spec_find_template(templates: Seq<TemplateView>, title: Seq<char>) -> Option<int>
    decreases templates.len(),
{
    if templates.len() == 0 {
        None
    } else {
        match spec_find_template(templates.drop_last(), title) {
            Some(i) => Some(i),
            None => if templates.last().title == title {
                Some(templates.len() - 1)
            } else {
                None
            },
        }
    }
}

/// What the search finds: the first index at which the title stands, and
/// nothing exactly where it stands nowhere.
pub proof fn law_find_template_is_first(templates: Seq<TemplateView>, title: Seq<char>)
    ensures
        match spec_find_template(templates, title) {
            Some(i) => {
                &&& 0 <= i < templates.len()
                &&& templates[i].title == title
                &&& forall|j: int| 0 <= j < i ==> (#[trigger] templates[j]).title != title
            },
            None => forall|j: int|
                0 <= j < templates.len() ==> (#[trigger] templates[j]).title != title,
        },
    decreases templates.len(),
{
    if templates.len() > 0 {
        let front = templates.drop_last();
        law_find_template_is_first(front, title);
        match spec_find_template(front, title) {
            Some(i) => {
                assert forall|j: int| 0 <= j < i implies (#[trigger] templates[j]).title
                    != title by {
                    assert(templates[j] == front[j]);
                }
            },
            None => {
                assert forall|j: int| 0 <= j < templates.len() - 1 implies (
                #[trigger] templates[j]).title != title by {
                    assert(templates[j] == front[j]);
                }
            },
        }
    }
}

/// Among templates with distinct titles, the template that the search finds
/// is the only one with the title.
pub proof fn law_find_template_is_only(templates: Seq<TemplateView>, title: Seq<char>)
    requires
        titles_distinct(templates),
    ensures
        spec_find_template(templates, title) matches Some(i) ==> forall|j: int|
            0 <= j < templates.len() && j != i ==> (#[trigger] templates[j]).title != title,
{
    law_find_template_is_first(templates, title);
}

/// Whether no two of the templates share a title.
pub fn titles_are_distinct(templates: &Vec<ChoreTemplate>) -> (distinct: bool)
    ensures
        distinct == titles_distinct(view_templates(templates@)),
{
    let ghost all = view_templates(templates@);
    let mut j: usize = 0;
    while j < templates.len()
        invariant
            j <= templates.len(),
            all == view_templates(templates@),
            forall|a: int, b: int|
                0 <= a < b < j ==> (#[trigger] all[a]).title != (#[trigger] all[b]).title,
        decreases templates.len() - j,
    {
        let mut i: usize = 0;
        while i < j
            invariant
                i <= j < templates.len(),
                all == view_templates(templates@),
                forall|a: int| 0 <= a < i ==> (#[trigger] all[a]).title != all[j as int].title,
            decreases j - i,
        {
            if templates[i].title == templates[j].title {
                assert(all[i as int].title == all[j as int].title);
                return false;
            }
            i = i + 1;
        }
        j = j + 1;
    }
    true
}

/// Finds the template with this title: the first one, which is the only one
/// where the titles are distinct.
pub fn find_template(templates: &Vec<ChoreTemplate>, title: &String) -> (found: Option<usize>)
    ensures
        match found {
            Some(i) => spec_find_template(view_templates(templates@), title@) == Some(i as int),
            None => spec_find_template(view_templates(templates@), title@) is None,
        },
        found matches Some(i) ==> i < templates.len() && templates[i as int]@.title == title@,
        found is None ==> forall|j: int|
            0 <= j < templates.len() ==> (#[trigger] view_templates(templates@)[j]).title
                != title@,
        titles_distinct(view_templates(templates@)) ==> (found matches Some(i) ==> forall|j: int|
            0 <= j < templates.len() && j != i ==> (#[trigger] view_templates(
                templates@,
            )[j]).title != title@),
{
    let ghost all = view_templates(templates@);
    let mut i: usize = 0;
    while i < templates.len()
        invariant
            i <= templates.len(),
            all == view_templates(templates@),
            spec_find_template(all.take(i as int), title@) is None,
        decreases templates.len() - i,
    {
        assert(all.take(i + 1).drop_last() =~= all.take(i as int));
        if templates[i].title == *title {
            proof {
                lemma_find_template_extends(all, (i + 1) as int, title@);
                if titles_distinct(all) {
                    law_find_template_is_only(all, title@);
                }
            }
            return Some(i);
        }
        i = i + 1;
    }
    assert(all.take(templates.len() as int) =~= all);
    proof {
        law_find_template_is_first(all, title@);
    }
    None
}

/// A title found among the first `n` templates is found at the same index
/// among all of them.
proof fn lemma_find_template_extends(templates: Seq<TemplateView>, n: int, title: Seq<char>)
    requires
        0 <= n <= templates.len(),
        spec_find_template(templates.take(n), title) is Some,
    ensures
        spec_find_template(templates, title) == spec_find_template(templates.take(n), title),
    decreases templates.len() - n,
{
    if n < templates.len() {
        assert(templates.take(n + 1).drop_last() =~= templates.take(n));
        lemma_find_template_extends(templates, n + 1, title);
    } else {
        assert(templates.take(n) =~= templates);
    }
}

} // verus!
