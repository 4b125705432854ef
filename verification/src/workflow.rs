//! The workflow that follows a scan: summarize what was found, offer to
//! list it, ask whether to delete it, and count what the deletion removed.
//!
//! The workflow decides and the caller acts. Each call of `Workflow::step`
//! takes what happened last, moves to the next stage and tells the caller
//! what to do next. Prompts are answered and files are removed by the
//! caller, who reports back with the next event.

use vstd::prelude::*;
use crate::descriptor::{descriptors, CacheFile, Descriptor};
use crate::report::{size_limit, summarize, summarizes, Summary};

verus! {

/// The count of what a deletion removed and of what it could not remove.
#[derive(Debug, Clone, Copy, PartialEq, Eq, Structural)]
pub struct DeletionTally {
    /// How many files were removed.
    pub deleted: usize,
    /// The sum of the sizes of the files that were removed.
    pub deleted_size: u128,
    /// How many files could not be removed.
    pub failed: usize,
}

/// How a run ended.
#[derive(Debug, Clone, Copy, PartialEq, Eq, Structural)]
pub enum Resolution {
    /// The scan found no file: nothing was summarized and nothing asked.
    NothingFound,
    /// The deletion was declined: no file was touched.
    Cancelled,
    /// The deletion was tried on every file.
    Deleted(DeletionTally),
}

/// Where a run stands.
#[derive(Debug, Clone, Copy, PartialEq, Eq, Structural)]
pub enum Stage {
    /// The files are collected and nothing has been shown.
    Scanned,
    /// The summary is shown; the answer on the list of files is awaited.
    Summarized,
    /// The answer on the list is in; the answer on the deletion is awaited.
    Confirming,
    /// The deletion was confirmed. The files before `cursor` have been
    /// tried, with the results in `tally`; the outcome for the file at
    /// `cursor` is awaited.
    Deleting { cursor: usize, tally: DeletionTally },
    /// The run is over.
    Resolved(Resolution),
}

/// What the caller reports to the workflow.
#[derive(Debug, Clone, Copy, PartialEq, Eq, Structural)]
pub enum Event {
    /// The run starts.
    Begin,
    /// The answer to the question that was asked last.
    Answer(bool),
    /// Whether the file that was to be removed is gone.
    Removal(bool),
}

/// What the workflow tells the caller to do.
#[derive(Debug, Clone, Copy, PartialEq, Eq, Structural)]
pub enum Action {
    /// Present the summary, ask whether to list the files, and report the
    /// answer.
    Summarize,
    /// Present the list of files if `list` is set; then ask whether to
    /// delete the files, and report the answer.
    Confirm { list: bool },
    /// Remove the file of the descriptor at `index`, and report whether it
    /// is gone.
    Remove { index: usize },
    /// Present how the run ended. No event is awaited.
    Finish(Resolution),
    /// The event is not the one that the stage awaits. Nothing has changed.
    Rejected,
}

impl DeletionTally {
    /// The tally before anything was tried.
    pub open spec fn empty() -> DeletionTally {
        DeletionTally { deleted: 0, deleted_size: 0, failed: 0 }
    }

    /// The tally after one more file of `size` bytes was tried.
    pub open spec fn record(self, size: u64, removed: bool) -> DeletionTally {
        if removed {
            DeletionTally {
                deleted: (self.deleted + 1) as usize,
                deleted_size: (self.deleted_size + size) as u128,
                failed: self.failed,
            }
        } else {
            DeletionTally {
                deleted: self.deleted,
                deleted_size: self.deleted_size,
                failed: (self.failed + 1) as usize,
            }
        }
    }
}

/// The stage that follows `stage` when `event` comes in, and the action
/// that answers the event.
pub open spec fn step_of(files: Seq<Descriptor>, stage: Stage, event: Event) -> (Stage, Action) {
    match (stage, event) {
        (Stage::Scanned, Event::Begin) => if files.len() == 0 {
            (Stage::Resolved(Resolution::NothingFound), Action::Finish(Resolution::NothingFound))
        } else {
            (Stage::Summarized, Action::Summarize)
        },
        (Stage::Summarized, Event::Answer(list)) => (Stage::Confirming, Action::Confirm { list }),
        (Stage::Confirming, Event::Answer(delete)) => if delete {
            (Stage::Deleting { cursor: 0, tally: DeletionTally::empty() }, Action::Remove { index: 0 })
        } else {
            (Stage::Resolved(Resolution::Cancelled), Action::Finish(Resolution::Cancelled))
        },
        (Stage::Deleting { cursor, tally }, Event::Removal(removed)) => {
            let tally = tally.record(files[cursor as int].size, removed);
            if cursor + 1 < files.len() {
                (
                    Stage::Deleting { cursor: (cursor + 1) as usize, tally },
                    Action::Remove { index: (cursor + 1) as usize },
                )
            } else {
                (
                    Stage::Resolved(Resolution::Deleted(tally)),
                    Action::Finish(Resolution::Deleted(tally)),
                )
            }
        },
        _ => (stage, Action::Rejected),
    }
}

/// Whether `stage` is one that a run over `files` can be in.
pub open spec fn stage_fits(files: Seq<Descriptor>, stage: Stage) -> bool {
    match stage {
        Stage::Scanned => true,
        Stage::Summarized => files.len() > 0,
        Stage::Confirming => files.len() > 0,
        Stage::Deleting { cursor, tally } => {
            &&& cursor < files.len()
            &&& tally.deleted + tally.failed == cursor
            &&& tally.deleted_size <= size_limit(tally.deleted as nat)
        },
        Stage::Resolved(_) => true,
    }
}

/// What a workflow holds: the files of the run and its stage.
pub struct WorkflowState {
    pub files: Seq<Descriptor>,
    pub stage: Stage,
}

/// The workflow of one run.
pub struct Workflow {
    files: Vec<CacheFile>,
    stage: Stage,
}

impl View for Workflow {
    type V = WorkflowState;

    closed spec fn view(&self) -> WorkflowState {
        WorkflowState { files: descriptors(self.files@), stage: self.stage }
    }
}

impl Workflow {
    #[verifier::type_invariant]
    spec fn fits(&self) -> bool {
        stage_fits(descriptors(self.files@), self.stage)
    }

    /// Starts the workflow for the files that a scan found.
    pub fn new(files: Vec<CacheFile>) -> (workflow: Workflow)
        ensures
            workflow@.files == descriptors(files@),
            workflow@.stage == Stage::Scanned,
    {
        Workflow { files, stage: Stage::Scanned }
    }

    /// The files of the run, in the order in which the scan found them.
    pub fn files(&self) -> (files: &Vec<CacheFile>)
        ensures
            descriptors(files@) == self@.files,
    {
        &self.files
    }

    /// The stage at which the run stands.
    pub fn stage(&self) -> (stage: Stage)
        ensures
            stage == self@.stage,
            stage_fits(self@.files, stage),
    {
        proof {
            use_type_invariant(self);
        }
        self.stage
    }

    /// The summary of the files of the run.
    pub fn summary(&self) -> (summary: Summary)
        ensures
            summarizes(summary, self@.files),
    {
        summarize(&self.files)
    }

    /// Takes in `event`, moves to the stage that follows, and returns what
    /// the caller has to do next. The files stay as they are.
    pub fn step(&mut self, event: Event) -> (action: Action)
        ensures
            final(self)@.files == old(self)@.files,
            (final(self)@.stage, action) == step_of(old(self)@.files, old(self)@.stage, event),
    {
        proof {
            use_type_invariant(&*self);
        }
        let count: usize = self.files.len();
        let (stage, action) = match (self.stage, event) {
            (Stage::Scanned, Event::Begin) => {
                if count == 0 {
                    (
                        Stage::Resolved(Resolution::NothingFound),
                        Action::Finish(Resolution::NothingFound),
                    )
                } else {
                    (Stage::Summarized, Action::Summarize)
                }
            },
            (Stage::Summarized, Event::Answer(list)) => (
                Stage::Confirming,
                Action::Confirm { list },
            ),
            (Stage::Confirming, Event::Answer(delete)) => {
                if delete {
                    let tally = DeletionTally { deleted: 0, deleted_size: 0, failed: 0 };
                    (Stage::Deleting { cursor: 0, tally }, Action::Remove { index: 0 })
                } else {
                    (Stage::Resolved(Resolution::Cancelled), Action::Finish(Resolution::Cancelled))
                }
            },
            (Stage::Deleting { cursor, tally }, Event::Removal(removed)) => {
                let size = self.files[cursor].size();
                let tally = if removed {
                    DeletionTally {
                        deleted: tally.deleted + 1,
                        deleted_size: tally.deleted_size + size as u128,
                        failed: tally.failed,
                    }
                } else {
                    DeletionTally {
                        deleted: tally.deleted,
                        deleted_size: tally.deleted_size,
                        failed: tally.failed + 1,
                    }
                };
                if cursor + 1 < count {
                    (Stage::Deleting { cursor: cursor + 1, tally }, Action::Remove { index: cursor + 1 })
                } else {
                    (
                        Stage::Resolved(Resolution::Deleted(tally)),
                        Action::Finish(Resolution::Deleted(tally)),
                    )
                }
            },
            _ => (self.stage, Action::Rejected),
        };
        self.stage = stage;
        action
    }
}

/// The stage that a run reaches from `stage` when `events` come in, one
/// after the other.
pub open spec fn run(files: Seq<Descriptor>, stage: Stage, events: Seq<Event>) -> Stage
    decreases events.len(),
{
    if events.len() == 0 {
        stage
    } else {
        step_of(files, run(files, stage, events.drop_last()), events.last()).0
    }
}

/// The actions that answer `events`, one for each, in a run from `stage`.
pub open spec fn actions(files: Seq<Descriptor>, stage: Stage, events: Seq<Event>) -> Seq<Action>
    decreases events.len(),
{
    if events.len() == 0 {
        Seq::empty()
    } else {
        actions(files, stage, events.drop_last()).push(
            step_of(files, run(files, stage, events.drop_last()), events.last()).1,
        )
    }
}

/// How many of `outcomes` are removals that succeeded.
pub open spec fn successes(outcomes: Seq<bool>) -> nat
    decreases outcomes.len(),
{
    if outcomes.len() == 0 {
        0
    } else if outcomes.last() {
        successes(outcomes.drop_last()) + 1
    } else {
        successes(outcomes.drop_last())
    }
}

/// The sum of the sizes of the files that were removed, where `outcomes`
/// tells for the first files, in order, whether they were.
pub open spec fn freed(files: Seq<Descriptor>, outcomes: Seq<bool>) -> nat
    decreases outcomes.len(),
{
    if outcomes.len() == 0 {
        0
    } else if outcomes.last() {
        freed(files, outcomes.drop_last()) + files[outcomes.len() - 1].size as nat
    } else {
        freed(files, outcomes.drop_last())
    }
}

/// The tally of a deletion in which the first files, in order, had the
/// `outcomes`.
pub open spec fn tally_of(files: Seq<Descriptor>, outcomes: Seq<bool>) -> DeletionTally {
    DeletionTally {
        deleted: successes(outcomes) as usize,
        deleted_size: freed(files, outcomes) as u128,
        failed: (outcomes.len() - successes(outcomes)) as usize,
    }
}

/// The events that report `outcomes`, one removal each.
pub open spec fn removals(outcomes: Seq<bool>) -> Seq<Event> {
    outcomes.map_values(|removed: bool| Event::Removal(removed))
}

/// Whether `action` puts a question to the user.
pub open spec fn asks(action: Action) -> bool {
    action is Summarize || action is Confirm
}

/// Whether no file can have been removed when a run stands at `stage`.
pub open spec fn untouched(stage: Stage) -> bool {
    match stage {
        Stage::Deleting { .. } => false,
        Stage::Resolved(Resolution::Deleted(_)) => false,
        _ => true,
    }
}

/// A step leads from a stage that a run can be in to another such stage.
pub proof fn lemma_step_keeps_stage_fitting(files: Seq<Descriptor>, stage: Stage, event: Event)
    requires
        files.len() <= usize::MAX,
        stage_fits(files, stage),
    ensures
        stage_fits(files, step_of(files, stage, event).0),
{
}

/// Once a run is over it stays as it is: every further event is rejected.
pub proof fn lemma_resolved_is_final(
    files: Seq<Descriptor>,
    resolution: Resolution,
    events: Seq<Event>,
)
    ensures
        run(files, Stage::Resolved(resolution), events) == Stage::Resolved(resolution),
        actions(files, Stage::Resolved(resolution), events).len() == events.len(),
        forall|i: int|
            0 <= i < events.len() ==> #[trigger] actions(
                files,
                Stage::Resolved(resolution),
                events,
            )[i] == Action::Rejected,
    decreases events.len(),
{
    if events.len() > 0 {
        lemma_resolved_is_final(files, resolution, events.drop_last());
    }
}

/// A scan that found nothing ends the run at once: whatever events come
/// in, no question is asked and no file is removed, and the first event,
/// if it is the start of the run, is answered with `NothingFound`.
pub proof fn lemma_empty_scan_asks_nothing(files: Seq<Descriptor>, events: Seq<Event>)
    requires
        files.len() == 0,
    ensures
        step_of(files, Stage::Scanned, Event::Begin) == (
            Stage::Resolved(Resolution::NothingFound),
            Action::Finish(Resolution::NothingFound),
        ),
        actions(files, Stage::Scanned, events).len() == events.len(),
        forall|i: int|
            0 <= i < events.len() ==> {
                let action = #[trigger] actions(files, Stage::Scanned, events)[i];
                !asks(action) && !(action is Remove)
            },
        run(files, Stage::Scanned, events) == Stage::Scanned || run(
            files,
            Stage::Scanned,
            events,
        ) == Stage::Resolved(Resolution::NothingFound),
    decreases events.len(),
{
    if events.len() > 0 {
        lemma_empty_scan_asks_nothing(files, events.drop_last());
    }
}

/// As long as a run stands at a stage before the deletion, or has ended
/// without one, it has told the caller to remove nothing.
pub proof fn lemma_untouched_run_removes_nothing(
    files: Seq<Descriptor>,
    events: Seq<Event>,
)
    requires
        untouched(run(files, Stage::Scanned, events)),
    ensures
        actions(files, Stage::Scanned, events).len() == events.len(),
        forall|i: int|
            0 <= i < events.len() ==> !(#[trigger] actions(files, Stage::Scanned, events)[i]
                is Remove),
    decreases events.len(),
{
    if events.len() > 0 {
        lemma_untouched_run_removes_nothing(files, events.drop_last());
    }
}

/// No more files are counted as removed than were tried, and what they
/// held is within the limit for their number.
proof fn lemma_tally_is_bounded(files: Seq<Descriptor>, outcomes: Seq<bool>)
    ensures
        successes(outcomes) <= outcomes.len(),
        freed(files, outcomes) <= size_limit(successes(outcomes)),
    decreases outcomes.len(),
{
    if outcomes.len() > 0 {
        lemma_tally_is_bounded(files, outcomes.drop_last());
    }
}

/// Where a deletion stands after the first `tried` files: at the next
/// file, with the tally of the outcomes so far, or at its end.
proof fn lemma_deletion_progress(files: Seq<Descriptor>, outcomes: Seq<bool>, tried: nat)
    requires
        0 < files.len() <= usize::MAX,
        outcomes.len() == files.len(),
        tried <= files.len(),
    ensures
        run(
            files,
            Stage::Deleting { cursor: 0, tally: DeletionTally::empty() },
            removals(outcomes.take(tried as int)),
        ) == (if tried < files.len() {
            Stage::Deleting {
                cursor: tried as usize,
                tally: tally_of(files, outcomes.take(tried as int)),
            }
        } else {
            Stage::Resolved(Resolution::Deleted(tally_of(files, outcomes)))
        }),
        actions(
            files,
            Stage::Deleting { cursor: 0, tally: DeletionTally::empty() },
            removals(outcomes.take(tried as int)),
        ).len() == tried,
        forall|i: int|
            0 <= i < tried ==> #[trigger] actions(
                files,
                Stage::Deleting { cursor: 0, tally: DeletionTally::empty() },
                removals(outcomes.take(tried as int)),
            )[i] == (if i + 1 < files.len() {
                Action::Remove { index: (i + 1) as usize }
            } else {
                Action::Finish(Resolution::Deleted(tally_of(files, outcomes)))
            }),
    decreases tried,
{
    if tried > 0 {
        let before = outcomes.take(tried - 1);
        let events = removals(outcomes.take(tried as int));
        lemma_deletion_progress(files, outcomes, (tried - 1) as nat);
        lemma_tally_is_bounded(files, before);
        assert(outcomes.take(tried as int).drop_last() =~= before);
        assert(events.drop_last() =~= removals(before));
        assert(events.last() == Event::Removal(outcomes[tried - 1]));
        assert(tally_of(files, outcomes.take(tried as int)) == tally_of(files, before).record(
            files[tried - 1].size,
            outcomes[tried - 1],
        ));
        if tried == files.len() {
            assert(outcomes.take(tried as int) =~= outcomes);
        }
    }
}

/// What the removals of a deletion lead to: the deletion tries every file,
/// in order, whatever the outcomes, and ends with their tally.
proof fn lemma_deletion_runs_through(files: Seq<Descriptor>, outcomes: Seq<bool>)
    requires
        0 < files.len() <= usize::MAX,
        outcomes.len() == files.len(),
    ensures
        run(
            files,
            Stage::Deleting { cursor: 0, tally: DeletionTally::empty() },
            removals(outcomes),
        ) == Stage::Resolved(Resolution::Deleted(tally_of(files, outcomes))),
        actions(
            files,
            Stage::Deleting { cursor: 0, tally: DeletionTally::empty() },
            removals(outcomes),
        ).len() == files.len(),
        forall|i: int|
            0 <= i < files.len() ==> #[trigger] actions(
                files,
                Stage::Deleting { cursor: 0, tally: DeletionTally::empty() },
                removals(outcomes),
            )[i] == (if i + 1 < files.len() {
                Action::Remove { index: (i + 1) as usize }
            } else {
                Action::Finish(Resolution::Deleted(tally_of(files, outcomes)))
            }),
{
    lemma_deletion_progress(files, outcomes, files.len());
    assert(outcomes.take(files.len() as int) =~= outcomes);
}

/// A run over two series of events, one after the other, is the run over
/// the first, followed by the run over the second from where the first
/// ended.
pub proof fn lemma_run_splits(
    files: Seq<Descriptor>,
    stage: Stage,
    first: Seq<Event>,
    second: Seq<Event>,
)
    ensures
        run(files, stage, first + second) == run(files, run(files, stage, first), second),
        actions(files, stage, first + second) == actions(files, stage, first) + actions(
            files,
            run(files, stage, first),
            second,
        ),
    decreases second.len(),
{
    if second.len() == 0 {
        assert(first + second =~= first);
    } else {
        lemma_run_splits(files, stage, first, second.drop_last());
        assert((first + second).drop_last() =~= first + second.drop_last());
        assert((first + second).last() == second.last());
    }
}

/// The events that open a run: its start, the answer on the list of
/// files, and the answer on the deletion.
pub open spec fn opening(list: bool, delete: bool) -> Seq<Event> {
    seq![Event::Begin, Event::Answer(list), Event::Answer(delete)]
}

/// Where the opening of a run leads when the scan found something: the
/// summary is presented, then the question on the deletion is put, with
/// the list if it was asked for, and then the deletion starts at the first
/// file, or the run is cancelled.
pub proof fn lemma_opening_leads_to_decision(files: Seq<Descriptor>, list: bool, delete: bool)
    requires
        files.len() > 0,
    ensures
        run(files, Stage::Scanned, opening(list, delete)) == (if delete {
            Stage::Deleting { cursor: 0, tally: DeletionTally::empty() }
        } else {
            Stage::Resolved(Resolution::Cancelled)
        }),
        actions(files, Stage::Scanned, opening(list, delete)) == seq![
            Action::Summarize,
            Action::Confirm { list },
            if delete {
                Action::Remove { index: 0 }
            } else {
                Action::Finish(Resolution::Cancelled)
            },
        ],
{
    let events = opening(list, delete);
    let two = seq![Event::Begin, Event::Answer(list)];
    let one = seq![Event::Begin];
    assert(events.drop_last() =~= two);
    assert(two.drop_last() =~= one);
    assert(one.drop_last() =~= Seq::<Event>::empty());
    assert(run(files, Stage::Scanned, Seq::<Event>::empty()) == Stage::Scanned);
    assert(actions(files, Stage::Scanned, Seq::<Event>::empty()) =~= Seq::<Action>::empty());
    assert(run(files, Stage::Scanned, one) == Stage::Summarized);
    assert(actions(files, Stage::Scanned, one) =~= seq![Action::Summarize]);
    assert(actions(files, Stage::Scanned, two) =~= seq![
        Action::Summarize,
        Action::Confirm { list },
    ]);
    assert(actions(files, Stage::Scanned, events) =~= seq![
        Action::Summarize,
        Action::Confirm { list },
        if delete {
            Action::Remove { index: 0 }
        } else {
            Action::Finish(Resolution::Cancelled)
        },
    ]);
}

/// A deletion that was confirmed tries every file, in order, whatever the
/// outcomes, and counts exactly what happened: as many files deleted as
/// removals succeeded, with the sum of their sizes, and as many failures
/// as removals failed.
pub proof fn lemma_deletion_counts_outcomes(
    files: Seq<Descriptor>,
    list: bool,
    outcomes: Seq<bool>,
)
    requires
        0 < files.len() <= usize::MAX,
        outcomes.len() == files.len(),
    ensures
        run(files, Stage::Scanned, opening(list, true) + removals(outcomes)) == Stage::Resolved(
            Resolution::Deleted(tally_of(files, outcomes)),
        ),
        actions(files, Stage::Scanned, opening(list, true) + removals(outcomes)).len()
            == files.len() + 3,
        forall|i: int|
            0 <= i < files.len() ==> #[trigger] actions(
                files,
                Stage::Scanned,
                opening(list, true) + removals(outcomes),
            )[i + 2] == (Action::Remove { index: i as usize }),
        actions(files, Stage::Scanned, opening(list, true) + removals(outcomes)).last()
            == Action::Finish(Resolution::Deleted(tally_of(files, outcomes))),
        tally_of(files, outcomes).deleted == successes(outcomes),
        tally_of(files, outcomes).failed == files.len() - successes(outcomes),
        tally_of(files, outcomes).deleted_size == freed(files, outcomes),
{
    let start = Stage::Deleting { cursor: 0, tally: DeletionTally::empty() };
    let whole = actions(files, Stage::Scanned, opening(list, true) + removals(outcomes));
    let later = actions(files, start, removals(outcomes));
    lemma_opening_leads_to_decision(files, list, true);
    lemma_run_splits(files, Stage::Scanned, opening(list, true), removals(outcomes));
    lemma_deletion_runs_through(files, outcomes);
    lemma_tally_is_bounded(files, outcomes);
    assert forall|i: int| 0 <= i < files.len() implies #[trigger] whole[i + 2] == (Action::Remove {
        index: i as usize,
    }) by {
        if i > 0 {
            assert(whole[i + 2] == later[i - 1]);
        }
    }
}

/// Declining the deletion cancels the run and leaves every file alone:
/// whatever events come in afterwards, the run stays cancelled, and from
/// its start to its end the caller is never told to remove a file.
pub proof fn lemma_declined_deletion_removes_nothing(
    files: Seq<Descriptor>,
    list: bool,
    later: Seq<Event>,
)
    requires
        files.len() > 0,
    ensures
        run(files, Stage::Scanned, opening(list, false) + later) == Stage::Resolved(
            Resolution::Cancelled,
        ),
        actions(files, Stage::Scanned, opening(list, false) + later).len() == 3 + later.len(),
        actions(files, Stage::Scanned, opening(list, false) + later)[2] == Action::Finish(
            Resolution::Cancelled,
        ),
        forall|i: int|
            0 <= i < 3 + later.len() ==> !(#[trigger] actions(
                files,
                Stage::Scanned,
                opening(list, false) + later,
            )[i] is Remove),
{
    lemma_opening_leads_to_decision(files, list, false);
    lemma_run_splits(files, Stage::Scanned, opening(list, false), later);
    lemma_resolved_is_final(files, Resolution::Cancelled, later);
}

} // verus!
