use batch_archive::workflow::{Action, Event, Outcome, RunStatus, Stage, WorkflowRun};

fn drive(categories: usize, events: &[Event]) -> (WorkflowRun, Vec<Action>) {
    let (mut run, first) = WorkflowRun::start(categories);
    let mut actions = vec![first];
    for event in events {
        actions.push(run.step(*event));
    }
    (run, actions)
}

const PROCEDURE_OK: Event = Event::ProcedureFinished { succeeded: true };
const ROWS: Event = Event::TableProbed { rows: Some(true) };
const PROBE_FAILED: Event = Event::TableProbed { rows: None::<bool> };
const JOB_OK: Event = Event::JobExited { succeeded: true };
const ARCHIVE_OK: Event = Event::ArchiveFinished { succeeded: true };
const ARCHIVE_FAILED: Event = Event::ArchiveFinished { succeeded: false };

#[test]
fn a_run_starts_with_the_procedure() {
    let (run, first) = WorkflowRun::start(2);
    assert_eq!(first, Action::RunProcedure);
    assert_eq!(run.stage(), Stage::Start);
    assert_eq!(run.categories(), 2);
    assert_eq!(run.outcome(), None);
}

#[test]
fn a_full_run_archives_everything_in_order() {
    let (run, actions) = drive(2, &[PROCEDURE_OK, ROWS, JOB_OK, ARCHIVE_OK, ARCHIVE_OK, ARCHIVE_OK]);
    assert_eq!(
        actions,
        vec![
            Action::RunProcedure,
            Action::ProbeTable,
            Action::RunJob,
            Action::ArchiveDated,
            Action::ArchiveCategory { index: 0 },
            Action::ArchiveCategory { index: 1 },
            Action::Stop,
        ]
    );
    assert_eq!(run.stage(), Stage::Done { outcome: Outcome::Archived });
    assert_eq!(run.outcome(), Some(Outcome::Archived));
    assert_eq!(Outcome::Archived.status(), RunStatus::Succeeded);
}

#[test]
fn stages_follow_one_another() {
    let (mut run, _) = WorkflowRun::start(1);
    run.step(PROCEDURE_OK);
    assert_eq!(run.stage(), Stage::ProcedureRan);
    run.step(ROWS);
    assert_eq!(run.stage(), Stage::JobInvoked);
    run.step(JOB_OK);
    assert_eq!(run.stage(), Stage::Archiving { finished: 0, failed: false });
    run.step(ARCHIVE_OK);
    assert_eq!(run.stage(), Stage::Archiving { finished: 1, failed: false });
    run.step(ARCHIVE_OK);
    assert_eq!(run.stage(), Stage::Done { outcome: Outcome::Archived });
}

#[test]
fn no_row_ends_the_run_before_the_job() {
    let (run, actions) = drive(2, &[PROCEDURE_OK, Event::TableProbed { rows: Some(false) }]);
    assert_eq!(actions, vec![Action::RunProcedure, Action::ProbeTable, Action::Stop]);
    assert_eq!(run.outcome(), Some(Outcome::NoData));
    assert_eq!(Outcome::NoData.status(), RunStatus::SkippedNoData);
    assert!(!Outcome::NoData.is_fatal());
}

#[test]
fn a_failed_procedure_ends_the_run() {
    let (run, actions) = drive(2, &[Event::ProcedureFinished { succeeded: false }]);
    assert_eq!(actions, vec![Action::RunProcedure, Action::Stop]);
    assert_eq!(run.outcome(), Some(Outcome::DatabaseError));
    assert_eq!(Outcome::DatabaseError.status(), RunStatus::Failed);
    assert!(Outcome::DatabaseError.is_fatal());
}

#[test]
fn a_failed_probe_ends_the_run() {
    let (run, actions) = drive(2, &[PROCEDURE_OK, PROBE_FAILED]);
    assert_eq!(actions, vec![Action::RunProcedure, Action::ProbeTable, Action::Stop]);
    assert_eq!(run.outcome(), Some(Outcome::DatabaseError));
}

#[test]
fn a_failed_job_skips_the_archives() {
    let (run, actions) = drive(2, &[PROCEDURE_OK, ROWS, Event::JobExited { succeeded: false }]);
    assert_eq!(
        actions,
        vec![Action::RunProcedure, Action::ProbeTable, Action::RunJob, Action::Stop]
    );
    assert_eq!(run.outcome(), Some(Outcome::JobFailed));
    assert_eq!(Outcome::JobFailed.status(), RunStatus::Failed);
    assert!(!Outcome::JobFailed.is_fatal());
}

#[test]
fn a_failed_dated_archive_skips_the_categories() {
    let (run, actions) = drive(2, &[PROCEDURE_OK, ROWS, JOB_OK, ARCHIVE_FAILED]);
    assert_eq!(actions.last(), Some(&Action::Stop));
    assert_eq!(actions.len(), 5);
    assert_eq!(run.outcome(), Some(Outcome::ArchiveError));
    assert_eq!(Outcome::ArchiveError.status(), RunStatus::Failed);
    assert!(!Outcome::ArchiveError.is_fatal());
}

#[test]
fn a_failed_category_does_not_stop_the_next() {
    let (run, actions) =
        drive(2, &[PROCEDURE_OK, ROWS, JOB_OK, ARCHIVE_OK, ARCHIVE_FAILED, ARCHIVE_OK]);
    assert_eq!(
        actions[4..].to_vec(),
        vec![
            Action::ArchiveCategory { index: 0 },
            Action::ArchiveCategory { index: 1 },
            Action::Stop
        ]
    );
    assert_eq!(run.outcome(), Some(Outcome::ArchiveError));
}

#[test]
fn a_failed_last_category_fails_the_run() {
    let (run, _) = drive(1, &[PROCEDURE_OK, ROWS, JOB_OK, ARCHIVE_OK, ARCHIVE_FAILED]);
    assert_eq!(run.outcome(), Some(Outcome::ArchiveError));
}

#[test]
fn a_run_without_categories_ends_after_the_dated_archive() {
    let (run, actions) = drive(0, &[PROCEDURE_OK, ROWS, JOB_OK, ARCHIVE_OK]);
    assert_eq!(
        actions,
        vec![
            Action::RunProcedure,
            Action::ProbeTable,
            Action::RunJob,
            Action::ArchiveDated,
            Action::Stop
        ]
    );
    assert_eq!(run.outcome(), Some(Outcome::Archived));
}

#[test]
fn done_is_final() {
    let (mut run, _) = drive(2, &[PROCEDURE_OK, Event::TableProbed { rows: Some(false) }]);
    for event in [PROCEDURE_OK, ROWS, JOB_OK, ARCHIVE_OK, ARCHIVE_FAILED] {
        assert_eq!(run.step(event), Action::Stop);
        assert_eq!(run.stage(), Stage::Done { outcome: Outcome::NoData });
    }
}

#[test]
fn an_event_out_of_turn_ends_the_run() {
    let (run, actions) = drive(2, &[ROWS]);
    assert_eq!(actions, vec![Action::RunProcedure, Action::Stop]);
    assert_eq!(run.outcome(), Some(Outcome::UnexpectedEvent));
    assert_eq!(Outcome::UnexpectedEvent.status(), RunStatus::Failed);
    let (run, _) = drive(2, &[PROCEDURE_OK, JOB_OK]);
    assert_eq!(run.outcome(), Some(Outcome::UnexpectedEvent));
    let (run, _) = drive(2, &[PROCEDURE_OK, ROWS, ARCHIVE_OK]);
    assert_eq!(run.outcome(), Some(Outcome::UnexpectedEvent));
    let (run, _) = drive(2, &[PROCEDURE_OK, ROWS, JOB_OK, JOB_OK]);
    assert_eq!(run.outcome(), Some(Outcome::UnexpectedEvent));
}

#[test]
fn without_a_row_no_job_and_no_archive() {
    let events = [
        PROCEDURE_OK,
        Event::TableProbed { rows: Some(false) },
        JOB_OK,
        ARCHIVE_OK,
        ARCHIVE_OK,
    ];
    let (_, actions) = drive(3, &events);
    for action in actions {
        assert!(action == Action::RunProcedure || action == Action::ProbeTable || action == Action::Stop);
    }
}
