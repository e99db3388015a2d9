//! The archival engine: which entries of a source tree are copied, and where to.
//!
//! The engine decides; it touches no file. It is given the entries that a walk
//! of the source tree found and returns an `ArchivePlan`: the folder to copy
//! into, whether that folder has to be created first, and one copy step for
//! each entry that is to be archived, in the order in which the walk found them.
//! A plan holds copy steps only, so carrying it out removes or moves nothing.

use vstd::prelude::*;
use crate::candidate::{candidate_views, day_of, CandidateView, FileCandidate};
use crate::clock::utc_timestamp;
use crate::pattern::{matches_pattern, PatternMatcher};
use crate::run_date::RunDate;
use vstd::string::*;

verus! {

/// Which entries an archive takes.
#[derive(Clone, Copy, Debug)]
pub enum ArchiveMode {
    /// Every entry whose name follows the convention.
    Dated,
    /// Of those, the ones last modified on the day into which `now_secs` falls.
    Category { now_secs: i64 },
}

/// The folder that an archive copies into: `folder` directly under `destination`.
/// For a dated archive `folder` is the run date, for a category archive the
/// category's label.
#[derive(Clone, Debug)]
pub struct ArchiveTarget {
    pub destination: String,
    pub folder: String,
}

/// An `ArchiveTarget` as contracts see it.
pub struct ArchiveTargetView {
    pub destination: Seq<char>,
    pub folder: Seq<char>,
}

impl View for ArchiveTarget {
    type V = ArchiveTargetView;

    open spec fn view(&self) -> ArchiveTargetView {
        ArchiveTargetView { destination: self.destination@, folder: self.folder@ }
    }
}

/// One file to copy: the file at `source` goes into the target folder under
/// the name `file_name`, replacing what may be there under that name.
#[derive(Clone, Debug)]
pub struct CopyStep {
    pub source: String,
    pub file_name: String,
}

/// A `CopyStep` as contracts see it.
pub struct CopyStepView {
    pub source: Seq<char>,
    pub file_name: Seq<char>,
}

impl View for CopyStep {
    type V = CopyStepView;

    open spec fn view(&self) -> CopyStepView {
        CopyStepView { source: self.source@, file_name: self.file_name@ }
    }
}

/// What one archive operation has to do.
#[derive(Clone, Debug)]
pub struct ArchivePlan {
    pub target: ArchiveTarget,
    /// Whether the target folder, with its missing parents, is created first.
    pub create_folder: bool,
    pub steps: Vec<CopyStep>,
}

/// An `ArchivePlan` as contracts see it.
pub struct ArchivePlanView {
    pub target: ArchiveTargetView,
    pub create_folder: bool,
    pub steps: Seq<CopyStepView>,
}

impl View for ArchivePlan {
    type V = ArchivePlanView;

    open spec fn view(&self) -> ArchivePlanView {
        ArchivePlanView {
            target: self.target@,
            create_folder: self.create_folder,
            steps: self.steps@.map_values(|s: CopyStep| s@),
        }
    }
}

/// Whether an archive in `mode`, with names of `digits` leading digits, takes `entry`.
pub open spec fn selects(digits: nat, mode: ArchiveMode, entry: CandidateView) -> bool {
    &&& entry.in_reach()
    &&& matches_pattern(entry.file_name, digits)
    &&& match mode {
        ArchiveMode::Dated => true,
        ArchiveMode::Category { now_secs } => entry.modified_on_day_of(now_secs),
    }
}

/// The copy step for one entry: the file keeps its base name.
pub open spec fn copy_step_of(entry: CandidateView) -> CopyStepView {
    CopyStepView { source: entry.path, file_name: entry.file_name }
}

/// The copy steps of an archive over `entries`: one for each entry that the
/// archive takes, in the order of `entries`.
pub open spec fn planned_steps(digits: nat, mode: ArchiveMode, entries: Seq<CandidateView>) -> Seq<
    CopyStepView,
> {
    entries.filter(|e: CandidateView| selects(digits, mode, e)).map_values(
        |e: CandidateView| copy_step_of(e),
    )
}

/// The plan of an archive over `entries` into `folder` under `destination`.
pub open spec fn planned_archive(
    digits: nat,
    mode: ArchiveMode,
    entries: Seq<CandidateView>,
    destination: Seq<char>,
    folder: Seq<char>,
    folder_exists: bool,
) -> ArchivePlanView {
    ArchivePlanView {
        target: ArchiveTargetView { destination, folder },
        create_folder: !folder_exists,
        steps: planned_steps(digits, mode, entries),
    }
}

/// Taking one more entry into account adds its copy step if the archive takes
/// the entry, and nothing otherwise.
pub proof fn lemma_planned_steps_push(
    digits: nat,
    mode: ArchiveMode,
    entries: Seq<CandidateView>,
    entry: CandidateView,
)
    ensures
        planned_steps(digits, mode, entries.push(entry)) == if selects(digits, mode, entry) {
            planned_steps(digits, mode, entries).push(copy_step_of(entry))
        } else {
            planned_steps(digits, mode, entries)
        },
{
    let pred = |e: CandidateView| selects(digits, mode, e);
    let longer = entries.push(entry);
    reveal(Seq::filter);
    assert(longer.drop_last() =~= entries);
    assert(longer.last() == entry);
    assert(longer.filter(pred) == if pred(entry) {
        entries.filter(pred).push(entry)
    } else {
        entries.filter(pred)
    });
    if pred(entry) {
        assert(entries.filter(pred).push(entry).map_values(|e: CandidateView| copy_step_of(e))
            =~= entries.filter(pred).map_values(|e: CandidateView| copy_step_of(e)).push(
            copy_step_of(entry),
        ));
    }
}

/// Every step of a plan copies an entry that the archive takes: nothing else
/// is copied.
pub proof fn lemma_steps_are_of_selected(
    digits: nat,
    mode: ArchiveMode,
    entries: Seq<CandidateView>,
    j: int,
)
    requires
        0 <= j < planned_steps(digits, mode, entries).len(),
    ensures
        exists|i: int|
            0 <= i < entries.len() && selects(digits, mode, #[trigger] entries[i])
                && planned_steps(digits, mode, entries)[j] == copy_step_of(entries[i]),
{
    let pred = |e: CandidateView| selects(digits, mode, e);
    let taken = entries.filter(pred);
    entries.lemma_filter_pred(pred, j);
    assert(taken.contains(taken[j]));
    entries.lemma_filter_contains_rev(pred, taken[j]);
    let i = choose|i: int| 0 <= i < entries.len() && entries[i] == taken[j];
    assert(selects(digits, mode, entries[i]));
}

/// Every entry that the archive takes has its step in the plan.
pub proof fn lemma_selected_have_steps(
    digits: nat,
    mode: ArchiveMode,
    entries: Seq<CandidateView>,
    i: int,
)
    requires
        0 <= i < entries.len(),
        selects(digits, mode, entries[i]),
    ensures
        planned_steps(digits, mode, entries).contains(copy_step_of(entries[i])),
{
    let pred = |e: CandidateView| selects(digits, mode, e);
    let taken = entries.filter(pred);
    entries.lemma_filter_contains(pred, i);
    let j = choose|j: int| 0 <= j < taken.len() && taken[j] == entries[i];
    assert(planned_steps(digits, mode, entries)[j] == copy_step_of(entries[i]));
}

/// A category archive takes what a dated archive takes and was last modified
/// on the day of `now_secs`: an entry modified the day before, or on any other
/// day, is left out whatever its name, and one modified on that day is taken
/// if a dated archive takes it.
pub proof fn lemma_category_takes_the_day_only(digits: nat, now_secs: i64, entry: CandidateView)
    ensures
        selects(digits, ArchiveMode::Category { now_secs }, entry) <==> selects(
            digits,
            ArchiveMode::Dated,
            entry,
        ) && entry.modified_on_day_of(now_secs),
        entry.modified_secs matches Some(modified) && day_of(modified as int) != day_of(
            now_secs as int,
        ) ==> !selects(digits, ArchiveMode::Category { now_secs }, entry),
        entry.modified_secs is None ==> !selects(
            digits,
            ArchiveMode::Category { now_secs },
            entry,
        ),
{
}

/// The plan of a category archive holds no step that only entries modified on
/// another day than that of `now_secs` could have given.
pub proof fn lemma_other_days_are_left_out(
    digits: nat,
    now_secs: i64,
    entries: Seq<CandidateView>,
    step: CopyStepView,
)
    requires
        forall|i: int|
            0 <= i < entries.len() && copy_step_of(#[trigger] entries[i]) == step
                ==> !entries[i].modified_on_day_of(now_secs),
    ensures
        !planned_steps(digits, ArchiveMode::Category { now_secs }, entries).contains(step),
{
    let mode = ArchiveMode::Category { now_secs };
    let steps = planned_steps(digits, mode, entries);
    if steps.contains(step) {
        let j = choose|j: int| 0 <= j < steps.len() && steps[j] == step;
        lemma_steps_are_of_selected(digits, mode, entries, j);
    }
}

/// Applies the naming convention and the rules of the two archive modes.
#[derive(Clone, Copy, Debug)]
pub struct ArchivalEngine {
    matcher: PatternMatcher,
}

impl ArchivalEngine {
    /// The number of leading digits that the engine's matcher asks for.
    pub closed spec fn spec_digits(&self) -> nat {
        self.matcher.spec_digits()
    }

    /// An engine that finds its candidates with `matcher`.
    pub fn new(matcher: PatternMatcher) -> (engine: ArchivalEngine)
        ensures
            engine.spec_digits() == matcher.spec_digits(),
    {
        ArchivalEngine { matcher }
    }

    /// The matcher that the engine was made with.
    pub fn matcher(&self) -> (matcher: PatternMatcher)
        ensures
            matcher.spec_digits() == self.spec_digits(),
    {
        self.matcher
    }

    /// Whether an archive in `mode` takes `entry`.
    pub fn selects(&self, mode: ArchiveMode, entry: &FileCandidate) -> (taken: bool)
        ensures
            taken == selects(self.spec_digits(), mode, entry@),
    {
        if !entry.in_reach() {
            return false;
        }
        if !self.matcher.is_match(entry.file_name.as_str()) {
            return false;
        }
        match mode {
            ArchiveMode::Dated => true,
            ArchiveMode::Category { now_secs } => entry.modified_on_day_of(now_secs),
        }
    }

    /// The plan of an archive in `mode` over `entries`, into `folder` under `destination`.
    pub fn plan(
        &self,
        mode: ArchiveMode,
        entries: &Vec<FileCandidate>,
        destination: &str,
        folder: &str,
        folder_exists: bool,
    ) -> (plan: ArchivePlan)
        ensures
            plan@ == planned_archive(
                self.spec_digits(),
                mode,
                candidate_views(entries@),
                destination@,
                folder@,
                folder_exists,
            ),
    {
        let mut steps: Vec<CopyStep> = Vec::new();
        let ghost views = candidate_views(entries@);
        let mut i: usize = 0;
        proof {
            assert(views.take(0) =~= Seq::<CandidateView>::empty());
            reveal(Seq::filter);
            assert(planned_steps(self.spec_digits(), mode, views.take(0)) =~= Seq::<
                CopyStepView,
            >::empty());
        }
        while i < entries.len()
            invariant
                i <= entries.len(),
                views == candidate_views(entries@),
                steps@.map_values(|s: CopyStep| s@) == planned_steps(
                    self.spec_digits(),
                    mode,
                    views.take(i as int),
                ),
            decreases entries.len() - i,
        {
            let entry = &entries[i];
            let ghost before = steps@.map_values(|s: CopyStep| s@);
            proof {
                assert(views.take(i + 1) =~= views.take(i as int).push(entry@));
                lemma_planned_steps_push(self.spec_digits(), mode, views.take(i as int), entry@);
            }
            if self.selects(mode, entry) {
                let step = CopyStep {
                    source: entry.path.clone(),
                    file_name: entry.file_name.clone(),
                };
                steps.push(step);
                assert(steps@.map_values(|s: CopyStep| s@) =~= before.push(copy_step_of(entry@)));
            }
            i = i + 1;
        }
        assert(views.take(i as int) =~= views);
        let target = ArchiveTarget {
            destination: String::from_str(destination),
            folder: String::from_str(folder),
        };
        ArchivePlan { target, create_folder: !folder_exists, steps }
    }

    /// The dated archive of a run: every entry of `entries` that is a regular
    /// file within reach and whose name follows the convention is copied into
    /// the folder named by `run_date` under `destination`.
    pub fn archive_dated(
        &self,
        entries: &Vec<FileCandidate>,
        destination: &str,
        run_date: &RunDate,
        folder_exists: bool,
    ) -> (plan: ArchivePlan)
        ensures
            plan@ == planned_archive(
                self.spec_digits(),
                ArchiveMode::Dated,
                candidate_views(entries@),
                destination@,
                run_date.spec_label(),
                folder_exists,
            ),
    {
        let folder = run_date.label();
        self.plan(ArchiveMode::Dated, entries, destination, folder.as_str(), folder_exists)
    }

    /// A category archive: of the entries that a dated archive would take,
    /// those last modified on the day into which `now_secs` falls are copied
    /// into the folder named `category` under `destination`.
    pub fn archive_category(
        &self,
        entries: &Vec<FileCandidate>,
        destination: &str,
        category: &str,
        now_secs: i64,
        folder_exists: bool,
    ) -> (plan: ArchivePlan)
        ensures
            plan@ == planned_archive(
                self.spec_digits(),
                ArchiveMode::Category { now_secs },
                candidate_views(entries@),
                destination@,
                category@,
                folder_exists,
            ),
    {
        self.plan(ArchiveMode::Category { now_secs }, entries, destination, category, folder_exists)
    }

    /// A category archive for the day on which the call is made, by the
    /// machine's clock: the plan is that of `archive_category` for the time
    /// that the clock gave.
    pub fn archive_category_today(
        &self,
        entries: &Vec<FileCandidate>,
        destination: &str,
        category: &str,
        folder_exists: bool,
    ) -> (plan: ArchivePlan)
        ensures
            exists|now_secs: i64|
                plan@ == #[trigger] planned_archive(
                    self.spec_digits(),
                    ArchiveMode::Category { now_secs },
                    candidate_views(entries@),
                    destination@,
                    category@,
                    folder_exists,
                ),
    {
        let now_secs: i64 = utc_timestamp();
        self.archive_category(entries, destination, category, now_secs, folder_exists)
    }
}

impl ArchivePlan {
    /// The number of files that the plan copies.
    pub fn copy_count(&self) -> (count: usize)
        ensures
            count == self@.steps.len(),
    {
        self.steps.len()
    }
}

} // verus!
