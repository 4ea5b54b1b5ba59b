use vstd::prelude::*;

verus! {

/// The schedules a frame runs, by label.
#[derive(Clone, Copy, Debug, PartialEq, Eq, Hash, Structural)]
pub enum Label {
    Main,
    First,
    PreUpdate,
    StateTransition,
    RunFixedMainLoop,
    FixedMain,
    FixedFirst,
    FixedPreUpdate,
    FixedUpdate,
    FixedPostUpdate,
    FixedLast,
    Update,
    SpawnScene,
    PostUpdate,
    Last,
    /// A schedule of the application's own, by an id it picks.
    Custom(u64),
}

/// The position of the first occurrence of `label`, where it occurs.
pub open spec fn first_position(labels: Seq<Label>, label: Label) -> int {
    choose|i: int|
        0 <= i < labels.len() && labels[i] == label && forall|j: int|
            0 <= j < i ==> #[trigger] labels[j] != label
}

/// Where the first occurrence of `label` is found, it sits at the position
/// `first_position` names.
pub proof fn lemma_first_position(labels: Seq<Label>, label: Label, i: int)
    requires
        0 <= i < labels.len(),
        labels[i] == label,
        forall|j: int| 0 <= j < i ==> #[trigger] labels[j] != label,
    ensures
        first_position(labels, label) == i,
{
    let k = first_position(labels, label);
    if k < i {
        assert(labels[k] == label);
    } else if i < k {
        assert(labels[i] != label);
    }
}

/// `labels` with `schedule` inserted right after the first occurrence of
/// `after`.
pub open spec fn inserted_after(labels: Seq<Label>, after: Label, schedule: Label) -> Seq<Label> {
    labels.insert(first_position(labels, after) + 1, schedule)
}

/// Inserts `schedule` right after the first occurrence of `after`, which
/// must occur.
fn insert_after_in(labels: &mut Vec<Label>, after: Label, schedule: Label)
    requires
        old(labels)@.contains(after),
    ensures
        final(labels)@ == inserted_after(old(labels)@, after, schedule),
{
    let mut i: usize = 0;
    while i < labels.len()
        invariant
            0 <= i <= labels@.len(),
            labels@ == old(labels)@,
            labels@.contains(after),
            forall|j: int| 0 <= j < i ==> #[trigger] labels@[j] != after,
        decreases labels@.len() - i,
    {
        if labels[i] == after {
            proof {
                lemma_first_position(labels@, after, i as int);
            }
            labels.insert(i + 1, schedule);
            return;
        }
        i = i + 1;
    }
    proof {
        let k = choose|k: int| 0 <= k < labels@.len() && labels@[k] == after;
        assert(labels@[k] != after);
    }
}

/// The order in which a frame runs its schedules.
pub struct MainScheduleOrder {
    pub labels: Vec<Label>,
}

/// The order of the schedules of a frame unless changed.
pub open spec fn default_main_order() -> Seq<Label> {
    seq![
        Label::First,
        Label::PreUpdate,
        Label::StateTransition,
        Label::RunFixedMainLoop,
        Label::Update,
        Label::SpawnScene,
        Label::PostUpdate,
        Label::Last,
    ]
}

/// The order of the schedules of a fixed step unless changed.
pub open spec fn default_fixed_order() -> Seq<Label> {
    seq![
        Label::FixedFirst,
        Label::FixedPreUpdate,
        Label::FixedUpdate,
        Label::FixedPostUpdate,
        Label::FixedLast,
    ]
}

impl Default for MainScheduleOrder {
    fn default() -> (o: MainScheduleOrder)
        ensures
            o.labels@ == default_main_order(),
    {
        MainScheduleOrder {
            labels: vec![
                Label::First,
                Label::PreUpdate,
                Label::StateTransition,
                Label::RunFixedMainLoop,
                Label::Update,
                Label::SpawnScene,
                Label::PostUpdate,
                Label::Last,
            ],
        }
    }
}

impl MainScheduleOrder {
    /// Runs `schedule` right after the first occurrence of `after`, which
    /// must be in the order.
    pub fn insert_after(&mut self, after: Label, schedule: Label)
        requires
            old(self).labels@.contains(after),
        ensures
            final(self).labels@ == inserted_after(old(self).labels@, after, schedule),
    {
        insert_after_in(&mut self.labels, after, schedule)
    }
}

/// The order in which a fixed step runs its schedules.
pub struct FixedMainScheduleOrder {
    pub labels: Vec<Label>,
}

impl Default for FixedMainScheduleOrder {
    fn default() -> (o: FixedMainScheduleOrder)
        ensures
            o.labels@ == default_fixed_order(),
    {
        FixedMainScheduleOrder {
            labels: vec![
                Label::FixedFirst,
                Label::FixedPreUpdate,
                Label::FixedUpdate,
                Label::FixedPostUpdate,
                Label::FixedLast,
            ],
        }
    }
}

impl FixedMainScheduleOrder {
    /// Runs `schedule` right after the first occurrence of `after`, which
    /// must be in the order.
    pub fn insert_after(&mut self, after: Label, schedule: Label)
        requires
            old(self).labels@.contains(after),
        ensures
            final(self).labels@ == inserted_after(old(self).labels@, after, schedule),
    {
        insert_after_in(&mut self.labels, after, schedule)
    }
}

/// Inserting a schedule after another keeps every schedule already in the
/// order, in the same order, and puts the new one right behind the first
/// occurrence of the other.
pub proof fn lemma_insert_after_keeps_order(labels: Seq<Label>, after: Label, schedule: Label)
    requires
        labels.contains(after),
    ensures
        ({
            let p = first_position(labels, after);
            let r = inserted_after(labels, after, schedule);
            &&& r.len() == labels.len() + 1
            &&& r[p] == after
            &&& r[p + 1] == schedule
            &&& forall|j: int| 0 <= j <= p ==> #[trigger] r[j] == labels[j]
            &&& forall|j: int| p + 1 <= j < labels.len() ==> #[trigger] r[j + 1] == labels[j]
        }),
{
    let k = choose|k: int| 0 <= k < labels.len() && labels[k] == after;
    lemma_first_exists(labels, after, k);
}

/// A label that occurs has a first occurrence, which `first_position`
/// names.
pub proof fn lemma_first_exists(labels: Seq<Label>, label: Label, k: int)
    requires
        0 <= k < labels.len(),
        labels[k] == label,
    ensures
        0 <= first_position(labels, label) <= k,
        labels[first_position(labels, label)] == label,
        forall|j: int| 0 <= j < first_position(labels, label) ==> #[trigger] labels[j] != label,
    decreases k,
{
    if exists|j: int| 0 <= j < k && #[trigger] labels[j] == label {
        let j = choose|j: int| 0 <= j < k && #[trigger] labels[j] == label;
        lemma_first_exists(labels, label, j);
    } else {
        lemma_first_position(labels, label, k);
    }
}

} // verus!
