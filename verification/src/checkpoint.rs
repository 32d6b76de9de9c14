//! The checkpoints of the lesson: named sub-goals with a three-state
//! progress, the fixed set of their identifiers, and how markers found in a
//! reply complete them.

use vstd::prelude::*;
use vstd::string::StringExecFns;

use crate::text::decimal;
use crate::text::decimal_string;

verus! {

/// How far the learner has come with a checkpoint.
#[derive(Clone, Copy, Debug, PartialEq, Eq, Structural)]
pub enum CheckpointStatus {
    NotStarted,
    InProgress,
    Completed,
}

/// A named sub-goal of the lesson.
#[derive(Debug, PartialEq, Eq)]
pub struct Checkpoint {
    pub id: String,
    pub description: String,
    pub status: CheckpointStatus,
}

/// A checkpoint as plain values.
pub struct CheckpointView {
    pub id: Seq<char>,
    pub description: Seq<char>,
    pub status: CheckpointStatus,
}

impl View for Checkpoint {
    type V = CheckpointView;

    open spec fn view(&self) -> CheckpointView {
        CheckpointView { id: self.id@, description: self.description@, status: self.status }
    }
}

impl DeepView for Checkpoint {
    type V = CheckpointView;

    open spec fn deep_view(&self) -> CheckpointView {
        self@
    }
}

impl Clone for Checkpoint {
    fn clone(&self) -> (r: Self)
        ensures
            r@ == self@,
    {
        Checkpoint {
            id: self.id.clone(),
            description: self.description.clone(),
            status: self.status,
        }
    }
}

/// A marker that named a checkpoint, with the description that followed it.
#[derive(Debug, PartialEq, Eq)]
pub struct CheckpointMatch {
    pub checkpoint_id: String,
    pub description: String,
}

/// A checkpoint match as plain values.
pub struct MatchView {
    pub checkpoint_id: Seq<char>,
    pub description: Seq<char>,
}

impl View for CheckpointMatch {
    type V = MatchView;

    open spec fn view(&self) -> MatchView {
        MatchView { checkpoint_id: self.checkpoint_id@, description: self.description@ }
    }
}

impl DeepView for CheckpointMatch {
    type V = MatchView;

    open spec fn deep_view(&self) -> MatchView {
        self@
    }
}

impl Clone for CheckpointMatch {
    fn clone(&self) -> (r: Self)
        ensures
            r@ == self@,
    {
        CheckpointMatch {
            checkpoint_id: self.checkpoint_id.clone(),
            description: self.description.clone(),
        }
    }
}

/// Whether `id` is one of the five checkpoint identifiers of the lesson.
pub open spec fn is_checkpoint_id(id: Seq<char>) -> bool {
    ||| id == "inefficiency_discovery"@
    ||| id == "splitting_insight"@
    ||| id == "merging_development"@
    ||| id == "recursive_pattern"@
    ||| id == "efficiency_analysis"@
}

/// The checkpoints that a lesson starts with: the first in progress, the
/// others not started.
pub open spec fn seed_checkpoints() -> Seq<CheckpointView> {
    seq![
        CheckpointView {
            id: "inefficiency_discovery"@,
            description: "Understanding sorting inefficiency"@,
            status: CheckpointStatus::InProgress,
        },
        CheckpointView {
            id: "splitting_insight"@,
            description: "Discovering divide-and-conquer benefit"@,
            status: CheckpointStatus::NotStarted,
        },
        CheckpointView {
            id: "merging_development"@,
            description: "Understanding systematic merging"@,
            status: CheckpointStatus::NotStarted,
        },
        CheckpointView {
            id: "recursive_pattern"@,
            description: "Grasping recursive nature"@,
            status: CheckpointStatus::NotStarted,
        },
        CheckpointView {
            id: "efficiency_analysis"@,
            description: "Comprehending O(n log n) complexity"@,
            status: CheckpointStatus::NotStarted,
        },
    ]
}

/// Position of the first checkpoint at or after `from` that is named `id`.
pub open spec fn position_from(checkpoints: Seq<CheckpointView>, id: Seq<char>, from: int)
    -> Option<int>
    decreases checkpoints.len() - from,
{
    if from < 0 || from >= checkpoints.len() {
        None
    } else if checkpoints[from].id == id {
        Some(from)
    } else {
        position_from(checkpoints, id, from + 1)
    }
}

/// Position of the first checkpoint that is named `id`.
pub open spec fn position_of(checkpoints: Seq<CheckpointView>, id: Seq<char>) -> Option<int> {
    position_from(checkpoints, id, 0)
}

/// Whether one of `markers` names the checkpoint at position `i`.
pub open spec fn is_hit(checkpoints: Seq<CheckpointView>, markers: Seq<MatchView>, i: int)
    -> bool {
    exists|k: int|
        0 <= k < markers.len() && position_of(checkpoints, #[trigger] markers[k].checkpoint_id)
            == Some(i)
}

/// `checkpoints` after `markers` were seen: a checkpoint that a marker names
/// is completed, every other one is as it was.
pub open spec fn completed_by(checkpoints: Seq<CheckpointView>, markers: Seq<MatchView>) -> Seq<
    CheckpointView,
> {
    Seq::new(
        checkpoints.len(),
        |i: int|
            if is_hit(checkpoints, markers, i) {
                CheckpointView { status: CheckpointStatus::Completed, ..checkpoints[i] }
            } else {
                checkpoints[i]
            },
    )
}

/// Those of `markers`, in order, that name one of `checkpoints`.
pub open spec fn accepted_markers(checkpoints: Seq<CheckpointView>, markers: Seq<MatchView>) -> Seq<
    MatchView,
> {
    markers.filter(|m: MatchView| position_of(checkpoints, m.checkpoint_id) is Some)
}

/// The line that the progress panel shows for the checkpoint at position
/// `index`: its number, and its description once it is completed.
pub open spec fn checkpoint_label(index: nat, checkpoint: CheckpointView) -> Seq<char> {
    match checkpoint.status {
        CheckpointStatus::Completed => decimal(index + 1) + ". "@ + checkpoint.description
            + " \u{2714}"@,
        CheckpointStatus::InProgress => decimal(index + 1)
            + ".   ? ? ?  (In Progress... \u{23f3})"@,
        CheckpointStatus::NotStarted => decimal(index + 1) + ".   ? ? ?"@,
    }
}

/// `position_from` yields the least position at or after `from` of a
/// checkpoint named `id`, and `None` exactly when there is none.
pub proof fn lemma_position_from(checkpoints: Seq<CheckpointView>, id: Seq<char>, from: int)
    requires
        0 <= from,
    ensures
        match position_from(checkpoints, id, from) {
            Some(at) => {
                &&& from <= at < checkpoints.len()
                &&& checkpoints[at].id == id
                &&& forall|j: int| from <= j < at ==> (#[trigger] checkpoints[j]).id != id
            },
            None => forall|j: int|
                from <= j < checkpoints.len() ==> (#[trigger] checkpoints[j]).id != id,
        },
    decreases checkpoints.len() - from,
{
    if from < checkpoints.len() && checkpoints[from].id != id {
        lemma_position_from(checkpoints, id, from + 1);
    }
}

/// Positions depend on the identifiers only.
pub proof fn lemma_position_same_ids(
    a: Seq<CheckpointView>,
    b: Seq<CheckpointView>,
    id: Seq<char>,
    from: int,
)
    requires
        a.len() == b.len(),
        forall|i: int| 0 <= i < a.len() ==> (#[trigger] a[i]).id == b[i].id,
    ensures
        position_from(a, id, from) == position_from(b, id, from),
    decreases a.len() - from,
{
    if 0 <= from < a.len() && a[from].id != id {
        lemma_position_same_ids(a, b, id, from + 1);
    }
}

/// Markers never undo progress, rename a checkpoint or change how many
/// there are: a status changes to `Completed` or not at all.
pub proof fn lemma_completed_by_only_completes(
    checkpoints: Seq<CheckpointView>,
    markers: Seq<MatchView>,
    i: int,
)
    requires
        0 <= i < checkpoints.len(),
    ensures
        completed_by(checkpoints, markers).len() == checkpoints.len(),
        completed_by(checkpoints, markers)[i].id == checkpoints[i].id,
        completed_by(checkpoints, markers)[i].description == checkpoints[i].description,
        completed_by(checkpoints, markers)[i].status == checkpoints[i].status || completed_by(
            checkpoints,
            markers,
        )[i].status == CheckpointStatus::Completed,
        checkpoints[i].status == CheckpointStatus::Completed ==> completed_by(
            checkpoints,
            markers,
        )[i] == checkpoints[i],
{
}

/// Without markers nothing changes.
pub proof fn lemma_completed_by_nothing(checkpoints: Seq<CheckpointView>)
    ensures
        completed_by(checkpoints, Seq::<MatchView>::empty()) == checkpoints,
        accepted_markers(checkpoints, Seq::<MatchView>::empty()) == Seq::<MatchView>::empty(),
{
    assert(completed_by(checkpoints, Seq::<MatchView>::empty()) =~= checkpoints);
}

/// Seeing one more marker completes the checkpoint that it names, if any.
pub proof fn lemma_completed_by_push(
    checkpoints: Seq<CheckpointView>,
    markers: Seq<MatchView>,
    marker: MatchView,
)
    ensures
        completed_by(checkpoints, markers.push(marker)) == match position_of(
            checkpoints,
            marker.checkpoint_id,
        ) {
            Some(at) => completed_by(checkpoints, markers).update(
                at,
                CheckpointView { status: CheckpointStatus::Completed, ..checkpoints[at] },
            ),
            None => completed_by(checkpoints, markers),
        },
        accepted_markers(checkpoints, markers.push(marker)) == if position_of(
            checkpoints,
            marker.checkpoint_id,
        ) is Some {
            accepted_markers(checkpoints, markers).push(marker)
        } else {
            accepted_markers(checkpoints, markers)
        },
{
    let more = markers.push(marker);
    let target = position_of(checkpoints, marker.checkpoint_id);
    lemma_position_from(checkpoints, marker.checkpoint_id, 0);
    assert forall|i: int| 0 <= i < checkpoints.len() implies is_hit(checkpoints, more, i) == (
    is_hit(checkpoints, markers, i) || target == Some(i)) by {
        if is_hit(checkpoints, markers, i) {
            let k = choose|k: int|
                0 <= k < markers.len() && position_of(
                    checkpoints,
                    #[trigger] markers[k].checkpoint_id,
                ) == Some(i);
            assert(more[k] == markers[k]);
        }
        if target == Some(i) {
            assert(more[markers.len() as int] == marker);
        }
        if is_hit(checkpoints, more, i) {
            let k = choose|k: int|
                0 <= k < more.len() && position_of(checkpoints, #[trigger] more[k].checkpoint_id)
                    == Some(i);
            if k < markers.len() {
                assert(more[k] == markers[k]);
            }
        }
    }
    let expected = match target {
        Some(at) => completed_by(checkpoints, markers).update(
            at,
            CheckpointView { status: CheckpointStatus::Completed, ..checkpoints[at] },
        ),
        None => completed_by(checkpoints, markers),
    };
    assert(completed_by(checkpoints, more) =~= expected);
    let keep = |m: MatchView| position_of(checkpoints, m.checkpoint_id) is Some;
    assert(more.drop_last() =~= markers);
    reveal(Seq::filter);
}

/// The checkpoints that a lesson starts with.
pub fn default_checkpoints() -> (checkpoints: Vec<Checkpoint>)
    ensures
        checkpoints.deep_view() == seed_checkpoints(),
{
    let mut checkpoints: Vec<Checkpoint> = Vec::new();
    checkpoints.push(
        Checkpoint {
            id: String::from_str("inefficiency_discovery"),
            description: String::from_str("Understanding sorting inefficiency"),
            status: CheckpointStatus::InProgress,
        },
    );
    checkpoints.push(
        Checkpoint {
            id: String::from_str("splitting_insight"),
            description: String::from_str("Discovering divide-and-conquer benefit"),
            status: CheckpointStatus::NotStarted,
        },
    );
    checkpoints.push(
        Checkpoint {
            id: String::from_str("merging_development"),
            description: String::from_str("Understanding systematic merging"),
            status: CheckpointStatus::NotStarted,
        },
    );
    checkpoints.push(
        Checkpoint {
            id: String::from_str("recursive_pattern"),
            description: String::from_str("Grasping recursive nature"),
            status: CheckpointStatus::NotStarted,
        },
    );
    checkpoints.push(
        Checkpoint {
            id: String::from_str("efficiency_analysis"),
            description: String::from_str("Comprehending O(n log n) complexity"),
            status: CheckpointStatus::NotStarted,
        },
    );
    assert(checkpoints.deep_view() =~= seed_checkpoints());
    checkpoints
}

/// Whether `id` is one of the five checkpoint identifiers of the lesson.
pub fn is_known_checkpoint_id(id: &String) -> (known: bool)
    ensures
        known == is_checkpoint_id(id@),
{
    *id == String::from_str("inefficiency_discovery") || *id == String::from_str(
        "splitting_insight",
    ) || *id == String::from_str("merging_development") || *id == String::from_str(
        "recursive_pattern",
    ) || *id == String::from_str("efficiency_analysis")
}

/// Position of the first checkpoint that is named `id`.
pub fn find_checkpoint(checkpoints: &Vec<Checkpoint>, id: &String) -> (at: Option<usize>)
    ensures
        match at {
            Some(i) => position_of(checkpoints.deep_view(), id@) == Some(i as int) && i
                < checkpoints.len(),
            None => position_of(checkpoints.deep_view(), id@) is None,
        },
{
    let mut i: usize = 0;
    while i < checkpoints.len()
        invariant
            i <= checkpoints.len(),
            position_of(checkpoints.deep_view(), id@) == position_from(
                checkpoints.deep_view(),
                id@,
                i as int,
            ),
        decreases checkpoints.len() - i,
    {
        if checkpoints[i].id == *id {
            return Some(i);
        }
        i += 1;
    }
    None
}

/// Completes each checkpoint that one of `markers` names and returns, in
/// order, the markers that named a checkpoint.
pub fn complete_checkpoints(checkpoints: &mut Vec<Checkpoint>, markers: &Vec<CheckpointMatch>) -> (
    accepted: Vec<CheckpointMatch>
)
    ensures
        final(checkpoints).deep_view() == completed_by(
            old(checkpoints).deep_view(),
            markers.deep_view(),
        ),
        accepted.deep_view() == accepted_markers(old(checkpoints).deep_view(), markers.deep_view()),
{
    let ghost before = checkpoints.deep_view();
    let ghost all = markers.deep_view();
    let mut accepted: Vec<CheckpointMatch> = Vec::new();
    let mut k: usize = 0;
    proof {
        lemma_completed_by_nothing(before);
        assert(accepted.deep_view() =~= Seq::<MatchView>::empty());
        assert(all.take(0) =~= Seq::<MatchView>::empty());
    }
    while k < markers.len()
        invariant
            k <= markers.len(),
            all == markers.deep_view(),
            checkpoints.deep_view() == completed_by(before, all.take(k as int)),
            accepted.deep_view() == accepted_markers(before, all.take(k as int)),
        decreases markers.len() - k,
    {
        let marker = markers[k].clone();
        let ghost seen = all.take(k as int);
        let ghost current = checkpoints.deep_view();
        proof {
            assert(marker@ == all[k as int]);
            assert(all.take(k + 1) =~= seen.push(marker@));
            lemma_completed_by_push(before, seen, marker@);
            assert forall|i: int| 0 <= i < current.len() implies (#[trigger] current[i]).id
                == before[i].id by {}
            lemma_position_same_ids(current, before, marker@.checkpoint_id, 0);
        }
        match find_checkpoint(checkpoints, &marker.checkpoint_id) {
            Some(at) => {
                let updated = Checkpoint {
                    id: checkpoints[at].id.clone(),
                    description: checkpoints[at].description.clone(),
                    status: CheckpointStatus::Completed,
                };
                checkpoints.set(at, updated);
                accepted.push(marker);
                proof {
                    assert(current[at as int].id == before[at as int].id);
                    assert(current[at as int].description == before[at as int].description);
                    assert(updated@ == (CheckpointView {
                        status: CheckpointStatus::Completed,
                        ..before[at as int]
                    }));
                    assert(checkpoints.deep_view() =~= current.update(
                        at as int,
                        CheckpointView {
                            status: CheckpointStatus::Completed,
                            ..before[at as int]
                        },
                    ));
                    assert(accepted.deep_view() =~= accepted_markers(before, seen).push(marker@));
                }
            },
            None => {},
        }
        k += 1;
    }
    proof {
        assert(all.take(k as int) =~= all);
    }
    accepted
}

impl Checkpoint {
    /// The line that the progress panel shows for this checkpoint at
    /// position `index`.
    pub fn label(&self, index: usize) -> (line: String)
        ensures
            line@ == checkpoint_label(index as nat, self@),
    {
        let number = decimal_string(index as u128 + 1);
        match self.status {
            CheckpointStatus::Completed => {
                let line = number.concat(". ").concat(self.description.as_str()).concat(
                    " \u{2714}",
                );
                line
            },
            CheckpointStatus::InProgress => number.concat(
                ".   ? ? ?  (In Progress... \u{23f3})",
            ),
            CheckpointStatus::NotStarted => number.concat(".   ? ? ?"),
        }
    }
}

} // verus!
