//! The order of a run's stages.
//!
//! A run is a state machine. The caller performs the action that the machine
//! hands out, reports how it ended as an `Event`, and gets the next action:
//! run the stored procedure, probe the result table, run the generation job,
//! archive the primary output, archive each category, stop. Stages only move
//! forward, and `Done` is final.

use vstd::prelude::*;

verus! {

/// How a run ended.
#[derive(Clone, Copy, Debug, PartialEq, Eq, Structural)]
pub enum Outcome {
    /// Every archive operation was carried out.
    Archived,
    /// The result table held no row: there was nothing to do.
    NoData,
    /// The generation job ended with a failure; nothing was archived.
    JobFailed,
    /// The stored procedure or the probe of the result table failed.
    DatabaseError,
    /// An archive operation failed. What had been copied before stays.
    ArchiveError,
    /// An event was reported that the stage it came in does not wait for.
    UnexpectedEvent,
}

/// The terminal status of a run.
#[derive(Clone, Copy, Debug, PartialEq, Eq, Structural)]
pub enum RunStatus {
    Succeeded,
    SkippedNoData,
    Failed,
}

/// Where a run stands.
#[derive(Clone, Copy, Debug, PartialEq, Eq, Structural)]
pub enum Stage {
    /// The stored procedure is to run.
    Start,
    /// The procedure ran; the result table is being probed.
    ProcedureRan,
    /// The table held a row; the generation job is running.
    JobInvoked,
    /// The job succeeded. `finished` archive operations have ended, the dated
    /// one first; `failed` tells whether one of them failed.
    Archiving { finished: usize, failed: bool },
    /// The run is over.
    Done { outcome: Outcome },
}

/// How the work of a stage ended.
#[derive(Clone, Copy, Debug, PartialEq, Eq, Structural)]
pub enum Event {
    /// The stored procedure returned, with or without an error.
    ProcedureFinished { succeeded: bool },
    /// The probe of the result table found a row, found none, or failed.
    TableProbed { rows: Option<bool> },
    /// The generation job exited, with exit code zero or another.
    JobExited { succeeded: bool },
    /// An archive operation ended, with or without an error.
    ArchiveFinished { succeeded: bool },
}

/// What the caller has to do next.
#[derive(Clone, Copy, Debug, PartialEq, Eq, Structural)]
pub enum Action {
    RunProcedure,
    ProbeTable,
    RunJob,
    ArchiveDated,
    /// Archive the category with this index, counted from 0.
    ArchiveCategory { index: usize },
    /// Nothing: the run is over.
    Stop,
}

impl Outcome {
    /// The terminal status that the outcome stands for.
    pub open spec fn spec_status(self) -> RunStatus {
        match self {
            Outcome::Archived => RunStatus::Succeeded,
            Outcome::NoData => RunStatus::SkippedNoData,
            _ => RunStatus::Failed,
        }
    }

    /// Whether the outcome is an error that ends the process with a failure.
    /// A run without data and a failed job do not: they are expected.
    pub open spec fn spec_is_fatal(self) -> bool {
        self == Outcome::DatabaseError
    }

    pub fn status(self) -> (status: RunStatus)
        ensures
            status == self.spec_status(),
    {
        match self {
            Outcome::Archived => RunStatus::Succeeded,
            Outcome::NoData => RunStatus::SkippedNoData,
            _ => RunStatus::Failed,
        }
    }

    pub fn is_fatal(self) -> (fatal: bool)
        ensures
            fatal == self.spec_is_fatal(),
    {
        match self {
            Outcome::DatabaseError => true,
            _ => false,
        }
    }
}

impl Action {
    /// The action starts the generation job or an archive operation.
    pub open spec fn touches_output(self) -> bool {
        self == Action::RunJob || self.archives()
    }

    /// The action is an archive operation.
    pub open spec fn archives(self) -> bool {
        self == Action::ArchiveDated || self is ArchiveCategory
    }
}

/// The stage and the action that follow when `event` is reported in `stage`,
/// in a run with `categories` category archives.
pub open spec fn next(stage: Stage, categories: nat, event: Event) -> (Stage, Action) {
    match (stage, event) {
        (Stage::Done { outcome }, _) => (stage, Action::Stop),
        (Stage::Start, Event::ProcedureFinished { succeeded }) => if succeeded {
            (Stage::ProcedureRan, Action::ProbeTable)
        } else {
            stopped(Outcome::DatabaseError)
        },
        (Stage::ProcedureRan, Event::TableProbed { rows }) => match rows {
            Some(true) => (Stage::JobInvoked, Action::RunJob),
            Some(false) => stopped(Outcome::NoData),
            None => stopped(Outcome::DatabaseError),
        },
        (Stage::JobInvoked, Event::JobExited { succeeded }) => if succeeded {
            (Stage::Archiving { finished: 0, failed: false }, Action::ArchiveDated)
        } else {
            stopped(Outcome::JobFailed)
        },
        (Stage::Archiving { finished, failed }, Event::ArchiveFinished { succeeded }) => {
            if finished == 0 && !succeeded {
                stopped(Outcome::ArchiveError)
            } else if finished < categories {
                (
                    Stage::Archiving {
                        finished: (finished + 1) as usize,
                        failed: failed || !succeeded,
                    },
                    Action::ArchiveCategory { index: finished },
                )
            } else if failed || !succeeded {
                stopped(Outcome::ArchiveError)
            } else {
                stopped(Outcome::Archived)
            }
        },
        _ => stopped(Outcome::UnexpectedEvent),
    }
}

/// The end of a run with `outcome`.
pub open spec fn stopped(outcome: Outcome) -> (Stage, Action) {
    (Stage::Done { outcome }, Action::Stop)
}

/// The actions that a run hands out, one for each of `events`, when it stands in `stage`.
pub open spec fn actions_from(stage: Stage, categories: nat, events: Seq<Event>) -> Seq<Action>
    decreases events.len(),
{
    if events.len() == 0 {
        Seq::empty()
    } else {
        let (following, action) = next(stage, categories, events[0]);
        seq![action] + actions_from(following, categories, events.drop_first())
    }
}

/// The stage that a run has reached after `events`, when it stood in `stage`.
pub open spec fn stage_after(stage: Stage, categories: nat, events: Seq<Event>) -> Stage
    decreases events.len(),
{
    if events.len() == 0 {
        stage
    } else {
        stage_after(next(stage, categories, events[0]).0, categories, events.drop_first())
    }
}

/// One run of the workflow.
#[derive(Clone, Copy, Debug)]
pub struct WorkflowRun {
    categories: usize,
    stage: Stage,
}

impl WorkflowRun {
    #[verifier::type_invariant]
    spec fn well_formed(self) -> bool {
        self.stage matches Stage::Archiving { finished, .. } ==> finished <= self.categories
    }

    /// The number of category archives of the run.
    pub closed spec fn spec_categories(&self) -> nat {
        self.categories as nat
    }

    /// The stage in which the run stands.
    pub closed spec fn spec_stage(&self) -> Stage {
        self.stage
    }

    /// A run with `categories` category archives, and its first action.
    pub fn start(categories: usize) -> (started: (WorkflowRun, Action))
        ensures
            started.0.spec_categories() == categories,
            started.0.spec_stage() == Stage::Start,
            started.1 == Action::RunProcedure,
    {
        (WorkflowRun { categories, stage: Stage::Start }, Action::RunProcedure)
    }

    pub fn categories(&self) -> (categories: usize)
        ensures
            categories == self.spec_categories(),
    {
        self.categories
    }

    pub fn stage(&self) -> (stage: Stage)
        ensures
            stage == self.spec_stage(),
    {
        self.stage
    }

    /// The outcome of the run, once it is over.
    pub fn outcome(&self) -> (outcome: Option<Outcome>)
        ensures
            outcome == match self.spec_stage() {
                Stage::Done { outcome } => Some(outcome),
                _ => None,
            },
    {
        match self.stage {
            Stage::Done { outcome } => Some(outcome),
            _ => None,
        }
    }

    /// Takes the report of how the current stage's work ended, moves to the
    /// stage that follows and returns what is to be done there.
    pub fn step(&mut self, event: Event) -> (action: Action)
        ensures
            final(self).spec_categories() == old(self).spec_categories(),
            (final(self).spec_stage(), action) == next(
                old(self).spec_stage(),
                old(self).spec_categories(),
                event,
            ),
    {
        proof {
            use_type_invariant(&*self);
        }
        let (following, action) = match (self.stage, event) {
            (Stage::Done { outcome }, _) => (self.stage, Action::Stop),
            (Stage::Start, Event::ProcedureFinished { succeeded }) => if succeeded {
                (Stage::ProcedureRan, Action::ProbeTable)
            } else {
                (Stage::Done { outcome: Outcome::DatabaseError }, Action::Stop)
            },
            (Stage::ProcedureRan, Event::TableProbed { rows }) => match rows {
                Some(true) => (Stage::JobInvoked, Action::RunJob),
                Some(false) => (Stage::Done { outcome: Outcome::NoData }, Action::Stop),
                None => (Stage::Done { outcome: Outcome::DatabaseError }, Action::Stop),
            },
            (Stage::JobInvoked, Event::JobExited { succeeded }) => if succeeded {
                (Stage::Archiving { finished: 0, failed: false }, Action::ArchiveDated)
            } else {
                (Stage::Done { outcome: Outcome::JobFailed }, Action::Stop)
            },
            (Stage::Archiving { finished, failed }, Event::ArchiveFinished { succeeded }) => {
                if finished == 0 && !succeeded {
                    (Stage::Done { outcome: Outcome::ArchiveError }, Action::Stop)
                } else if finished < self.categories {
                    (
                        Stage::Archiving { finished: finished + 1, failed: failed || !succeeded },
                        Action::ArchiveCategory { index: finished },
                    )
                } else if failed || !succeeded {
                    (Stage::Done { outcome: Outcome::ArchiveError }, Action::Stop)
                } else {
                    (Stage::Done { outcome: Outcome::Archived }, Action::Stop)
                }
            },
            _ => (Stage::Done { outcome: Outcome::UnexpectedEvent }, Action::Stop),
        };
        self.stage = following;
        action
    }
}

/// The stage has not let the generation job start yet, or the run is over.
pub open spec fn before_job(stage: Stage) -> bool {
    stage == Stage::Start || stage == Stage::ProcedureRan || stage is Done
}

/// The stage has not let an archive operation start yet, or the run is over.
pub open spec fn before_archive(stage: Stage) -> bool {
    before_job(stage) || stage == Stage::JobInvoked
}

/// A run hands out one action for each event.
pub proof fn lemma_one_action_per_event(stage: Stage, categories: nat, events: Seq<Event>)
    ensures
        actions_from(stage, categories, events).len() == events.len(),
    decreases events.len(),
{
    if events.len() > 0 {
        lemma_one_action_per_event(
            next(stage, categories, events[0]).0,
            categories,
            events.drop_first(),
        );
    }
}

/// The actions of a run, event by event: the first is the one that the first
/// event brings, and each later one is the action that the run hands out, one
/// place earlier, from the stage that the first event led to.
pub proof fn lemma_actions_unfold(stage: Stage, categories: nat, events: Seq<Event>, i: int)
    requires
        0 <= i < events.len(),
    ensures
        actions_from(stage, categories, events).len() == events.len(),
        i == 0 ==> actions_from(stage, categories, events)[i] == next(
            stage,
            categories,
            events[0],
        ).1,
        i > 0 ==> actions_from(stage, categories, events)[i] == actions_from(
            next(stage, categories, events[0]).0,
            categories,
            events.drop_first(),
        )[i - 1],
{
    lemma_one_action_per_event(stage, categories, events);
    lemma_one_action_per_event(
        next(stage, categories, events[0]).0,
        categories,
        events.drop_first(),
    );
}

/// `Done` is final: whatever is reported to a run that is over, it stays over
/// with the outcome it had, and every action it hands out is `Stop`.
pub proof fn lemma_done_is_final(outcome: Outcome, categories: nat, events: Seq<Event>)
    ensures
        stage_after(Stage::Done { outcome }, categories, events) == (Stage::Done { outcome }),
        forall|i: int|
            0 <= i < events.len() ==> #[trigger] actions_from(
                Stage::Done { outcome },
                categories,
                events,
            )[i] == Action::Stop,
    decreases events.len(),
{
    let done = Stage::Done { outcome };
    if events.len() > 0 {
        lemma_done_is_final(outcome, categories, events.drop_first());
        assert forall|i: int| 0 <= i < events.len() implies #[trigger] actions_from(
            done,
            categories,
            events,
        )[i] == Action::Stop by {
            lemma_actions_unfold(done, categories, events, i);
        }
    }
}

/// As long as no probe of the result table reports a row, a run
/// neither starts the generation job nor archives anything, whatever else is
/// reported to it and in whatever order.
pub proof fn lemma_no_row_no_job(stage: Stage, categories: nat, events: Seq<Event>)
    requires
        before_job(stage),
        forall|i: int|
            0 <= i < events.len() ==> #[trigger] events[i] != (Event::TableProbed {
                rows: Some(true),
            }),
    ensures
        before_job(stage_after(stage, categories, events)),
        forall|i: int|
            0 <= i < events.len() ==> !(#[trigger] actions_from(
                stage,
                categories,
                events,
            )[i]).touches_output(),
    decreases events.len(),
{
    if events.len() > 0 {
        let following = next(stage, categories, events[0]).0;
        let rest = events.drop_first();
        assert(events[0] != Event::TableProbed { rows: Some(true) });
        assert forall|i: int| 0 <= i < rest.len() implies #[trigger] rest[i] != (
        Event::TableProbed { rows: Some(true) }) by {
            assert(rest[i] == events[i + 1]);
        }
        lemma_no_row_no_job(following, categories, rest);
        assert forall|i: int| 0 <= i < events.len() implies !(#[trigger] actions_from(
            stage,
            categories,
            events,
        )[i]).touches_output() by {
            lemma_actions_unfold(stage, categories, events, i);
        }
    }
}

/// As long as no exit of the generation job is reported as a success, a run
/// archives nothing.
pub proof fn lemma_no_job_success_no_archive(stage: Stage, categories: nat, events: Seq<Event>)
    requires
        before_archive(stage),
        forall|i: int|
            0 <= i < events.len() ==> #[trigger] events[i] != (Event::JobExited {
                succeeded: true,
            }),
    ensures
        before_archive(stage_after(stage, categories, events)),
        forall|i: int|
            0 <= i < events.len() ==> !(#[trigger] actions_from(
                stage,
                categories,
                events,
            )[i]).archives(),
    decreases events.len(),
{
    if events.len() > 0 {
        let following = next(stage, categories, events[0]).0;
        let rest = events.drop_first();
        assert(events[0] != Event::JobExited { succeeded: true });
        assert forall|i: int| 0 <= i < rest.len() implies #[trigger] rest[i] != (
        Event::JobExited { succeeded: true }) by {
            assert(rest[i] == events[i + 1]);
        }
        lemma_no_job_success_no_archive(following, categories, rest);
        assert forall|i: int| 0 <= i < events.len() implies !(#[trigger] actions_from(
            stage,
            categories,
            events,
        )[i]).archives() by {
            lemma_actions_unfold(stage, categories, events, i);
        }
    }
}

/// How far a run has come: stages only move forward.
pub open spec fn progress(stage: Stage) -> nat {
    match stage {
        Stage::Start => 0,
        Stage::ProcedureRan => 1,
        Stage::JobInvoked => 2,
        Stage::Archiving { finished, .. } => 3 + finished as nat,
        Stage::Done { .. } => 4 + usize::MAX as nat,
    }
}

/// Every event moves a run that is not over to a later stage, and over is
/// what a run is exactly when the action is `Stop`.
pub proof fn lemma_step_moves_forward(stage: Stage, categories: nat, event: Event)
    requires
        !(stage is Done),
        stage matches Stage::Archiving { finished, .. } ==> finished <= categories,
        categories <= usize::MAX,
    ensures
        progress(next(stage, categories, event).0) > progress(stage),
        next(stage, categories, event).0 is Done <==> next(stage, categories, event).1
            == Action::Stop,
        next(stage, categories, event).0 matches Stage::Archiving { finished, .. } ==> finished
            <= categories,
{
}

} // verus!
