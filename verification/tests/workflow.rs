use cache_detector::descriptor::{CacheFile, EntryKind, FileStat};
use cache_detector::workflow::{Action, DeletionTally, Event, Resolution, Stage, Workflow};

fn file(path: &str, size: u64) -> CacheFile {
    let stat = FileStat { kind: EntryKind::File, size };
    CacheFile::new(path.to_string(), Some(stat)).unwrap()
}

fn three_files() -> Vec<CacheFile> {
    vec![file("a/x.tmp", 10), file("a/y.log", 200), file("a/z.bak", 3000)]
}

#[test]
fn empty_scan_ends_without_a_question() {
    let mut workflow = Workflow::new(Vec::new());
    assert_eq!(workflow.stage(), Stage::Scanned);
    let summary = workflow.summary();
    assert_eq!(summary.count, 0);
    assert_eq!(summary.size, 0);
    assert!(summary.categories.is_empty());
    assert_eq!(
        workflow.step(Event::Begin),
        Action::Finish(Resolution::NothingFound)
    );
    assert_eq!(workflow.stage(), Stage::Resolved(Resolution::NothingFound));
    assert_eq!(workflow.step(Event::Answer(true)), Action::Rejected);
    assert_eq!(workflow.step(Event::Answer(true)), Action::Rejected);
    assert_eq!(workflow.step(Event::Removal(true)), Action::Rejected);
    assert_eq!(workflow.stage(), Stage::Resolved(Resolution::NothingFound));
}

#[test]
fn declined_deletion_removes_nothing() {
    let mut workflow = Workflow::new(three_files());
    assert_eq!(workflow.step(Event::Begin), Action::Summarize);
    assert_eq!(workflow.stage(), Stage::Summarized);
    assert_eq!(workflow.step(Event::Answer(true)), Action::Confirm { list: true });
    assert_eq!(workflow.stage(), Stage::Confirming);
    assert_eq!(
        workflow.step(Event::Answer(false)),
        Action::Finish(Resolution::Cancelled)
    );
    assert_eq!(workflow.stage(), Stage::Resolved(Resolution::Cancelled));
    assert_eq!(workflow.step(Event::Answer(true)), Action::Rejected);
    assert_eq!(workflow.step(Event::Removal(true)), Action::Rejected);
    assert_eq!(workflow.step(Event::Begin), Action::Rejected);
    assert_eq!(workflow.stage(), Stage::Resolved(Resolution::Cancelled));
    assert_eq!(workflow.files().len(), 3);
}

#[test]
fn listing_answer_is_handed_on() {
    let mut workflow = Workflow::new(three_files());
    assert_eq!(workflow.step(Event::Begin), Action::Summarize);
    assert_eq!(workflow.step(Event::Answer(false)), Action::Confirm { list: false });
    assert_eq!(workflow.stage(), Stage::Confirming);
}

#[test]
fn deletion_counts_what_succeeded() {
    let mut workflow = Workflow::new(three_files());
    assert_eq!(workflow.step(Event::Begin), Action::Summarize);
    assert_eq!(workflow.step(Event::Answer(false)), Action::Confirm { list: false });
    assert_eq!(workflow.step(Event::Answer(true)), Action::Remove { index: 0 });
    assert_eq!(
        workflow.stage(),
        Stage::Deleting {
            cursor: 0,
            tally: DeletionTally { deleted: 0, deleted_size: 0, failed: 0 }
        }
    );
    assert_eq!(workflow.step(Event::Removal(true)), Action::Remove { index: 1 });
    assert_eq!(workflow.step(Event::Removal(false)), Action::Remove { index: 2 });
    assert_eq!(
        workflow.stage(),
        Stage::Deleting {
            cursor: 2,
            tally: DeletionTally { deleted: 1, deleted_size: 10, failed: 1 }
        }
    );
    let tally = DeletionTally { deleted: 2, deleted_size: 3010, failed: 1 };
    assert_eq!(
        workflow.step(Event::Removal(true)),
        Action::Finish(Resolution::Deleted(tally))
    );
    assert_eq!(workflow.stage(), Stage::Resolved(Resolution::Deleted(tally)));
    assert_eq!(workflow.step(Event::Removal(true)), Action::Rejected);
    assert_eq!(workflow.stage(), Stage::Resolved(Resolution::Deleted(tally)));
}

#[test]
fn deletion_goes_on_after_every_failure() {
    let mut workflow = Workflow::new(three_files());
    workflow.step(Event::Begin);
    workflow.step(Event::Answer(false));
    assert_eq!(workflow.step(Event::Answer(true)), Action::Remove { index: 0 });
    assert_eq!(workflow.step(Event::Removal(false)), Action::Remove { index: 1 });
    assert_eq!(workflow.step(Event::Removal(false)), Action::Remove { index: 2 });
    assert_eq!(
        workflow.step(Event::Removal(false)),
        Action::Finish(Resolution::Deleted(DeletionTally {
            deleted: 0,
            deleted_size: 0,
            failed: 3
        }))
    );
}

#[test]
fn deletion_of_a_single_file_ends_after_one_removal() {
    let mut workflow = Workflow::new(vec![file("a/x.tmp", u64::MAX)]);
    workflow.step(Event::Begin);
    workflow.step(Event::Answer(true));
    assert_eq!(workflow.step(Event::Answer(true)), Action::Remove { index: 0 });
    assert_eq!(
        workflow.step(Event::Removal(true)),
        Action::Finish(Resolution::Deleted(DeletionTally {
            deleted: 1,
            deleted_size: u64::MAX as u128,
            failed: 0
        }))
    );
}

#[test]
fn event_that_is_not_awaited_changes_nothing() {
    let mut workflow = Workflow::new(three_files());
    assert_eq!(workflow.step(Event::Answer(true)), Action::Rejected);
    assert_eq!(workflow.step(Event::Removal(true)), Action::Rejected);
    assert_eq!(workflow.stage(), Stage::Scanned);
    workflow.step(Event::Begin);
    assert_eq!(workflow.step(Event::Begin), Action::Rejected);
    assert_eq!(workflow.step(Event::Removal(true)), Action::Rejected);
    assert_eq!(workflow.stage(), Stage::Summarized);
    workflow.step(Event::Answer(true));
    assert_eq!(workflow.step(Event::Removal(true)), Action::Rejected);
    assert_eq!(workflow.stage(), Stage::Confirming);
    workflow.step(Event::Answer(true));
    assert_eq!(workflow.step(Event::Answer(false)), Action::Rejected);
    assert_eq!(workflow.step(Event::Begin), Action::Rejected);
    assert_eq!(
        workflow.stage(),
        Stage::Deleting {
            cursor: 0,
            tally: DeletionTally { deleted: 0, deleted_size: 0, failed: 0 }
        }
    );
}

#[test]
fn workflow_summary_is_that_of_its_files() {
    let workflow = Workflow::new(three_files());
    let summary = workflow.summary();
    assert_eq!(summary.count, 3);
    assert_eq!(summary.size, 3210);
    assert_eq!(summary.categories.len(), 3);
    assert_eq!(workflow.files()[1].path(), "a/y.log");
}
