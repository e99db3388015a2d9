//! What carrying out a plan does to its target folder, as a model.
//!
//! The model of a folder tells whether it exists and, for each file name in
//! it, of which source file the file under that name is a copy. Copying under
//! a name replaces what the folder held under it. The model knows nothing of
//! removing or moving, as a plan holds no such step.

use vstd::prelude::*;
use crate::archive::{
    copy_step_of, lemma_selected_have_steps, lemma_steps_are_of_selected, planned_archive,
    planned_steps, selects, ArchiveMode, ArchivePlanView, CopyStepView,
};
use crate::candidate::CandidateView;

verus! {

/// The model of a target folder.
pub struct FolderState {
    /// Whether the folder exists.
    pub exists: bool,
    /// For each file name in the folder, the path of the source file of which
    /// the file is a copy.
    pub files: Map<Seq<char>, Seq<char>>,
}

/// The files of a folder after `steps` were carried out in their order.
pub open spec fn copied(files: Map<Seq<char>, Seq<char>>, steps: Seq<CopyStepView>) -> Map<
    Seq<char>,
    Seq<char>,
>
    decreases steps.len(),
{
    if steps.len() == 0 {
        files
    } else {
        copied(files, steps.drop_last()).insert(steps.last().file_name, steps.last().source)
    }
}

/// The source of the last of `steps` that copies under `name`, if there is one.
pub open spec fn last_source(steps: Seq<CopyStepView>, name: Seq<char>) -> Option<Seq<char>>
    decreases steps.len(),
{
    if steps.len() == 0 {
        None
    } else if steps.last().file_name == name {
        Some(steps.last().source)
    } else {
        last_source(steps.drop_last(), name)
    }
}

/// A plan can be carried out on a folder: it creates the folder exactly where
/// the folder is missing.
pub open spec fn fits(state: FolderState, plan: ArchivePlanView) -> bool {
    plan.create_folder == !state.exists
}

/// The folder after `plan` was carried out on it.
pub open spec fn carried_out(state: FolderState, plan: ArchivePlanView) -> FolderState {
    FolderState { exists: state.exists || plan.create_folder, files: copied(state.files, plan.steps) }
}

/// After `steps`, a folder holds under each name the copy that the last step
/// for that name made, and under every other name what it held before.
pub proof fn lemma_copied_lookup(
    files: Map<Seq<char>, Seq<char>>,
    steps: Seq<CopyStepView>,
    name: Seq<char>,
)
    ensures
        copied(files, steps).contains_key(name) <==> files.contains_key(name) || last_source(
            steps,
            name,
        ) is Some,
        last_source(steps, name) matches Some(source) ==> copied(files, steps)[name] == source,
        last_source(steps, name) is None ==> copied(files, steps)[name] == files[name],
    decreases steps.len(),
{
    if steps.len() > 0 {
        lemma_copied_lookup(files, steps.drop_last(), name);
    }
}

/// A name has a last copy exactly if some step copies under it.
pub proof fn lemma_last_source_is_some(steps: Seq<CopyStepView>, name: Seq<char>)
    ensures
        last_source(steps, name) is Some <==> exists|j: int|
            0 <= j < steps.len() && (#[trigger] steps[j]).file_name == name,
    decreases steps.len(),
{
    if steps.len() > 0 {
        let front = steps.drop_last();
        lemma_last_source_is_some(front, name);
        if steps.last().file_name == name {
            assert(steps[steps.len() - 1].file_name == name);
        } else if last_source(front, name) is Some {
            let j = choose|j: int| 0 <= j < front.len() && (#[trigger] front[j]).file_name == name;
            assert(steps[j].file_name == name);
        } else {
            assert forall|j: int| 0 <= j < steps.len() implies (#[trigger] steps[j]).file_name
                != name by {
                if j < front.len() {
                    assert(front[j] == steps[j]);
                }
            }
        }
    }
}

/// The last copy under a name is the copy of one of the steps for that name.
pub proof fn lemma_last_source_is_of_a_step(steps: Seq<CopyStepView>, name: Seq<char>)
    requires
        last_source(steps, name) is Some,
    ensures
        exists|j: int|
            0 <= j < steps.len() && (#[trigger] steps[j]).file_name == name && steps[j].source
                == last_source(steps, name)->0,
    decreases steps.len(),
{
    if steps.last().file_name == name {
        assert(steps[steps.len() - 1].file_name == name);
    } else {
        let front = steps.drop_last();
        lemma_last_source_is_of_a_step(front, name);
        let j = choose|j: int|
            0 <= j < front.len() && (#[trigger] front[j]).file_name == name && front[j].source
                == last_source(front, name)->0;
        assert(steps[j] == front[j]);
    }
}

/// The names in a folder after `steps` are those it held and those that the
/// steps copy under, and no others.
pub proof fn lemma_copied_names(files: Map<Seq<char>, Seq<char>>, steps: Seq<CopyStepView>)
    ensures
        forall|name: Seq<char>| #[trigger]
            copied(files, steps).contains_key(name) <==> files.contains_key(name) || exists|
                j: int,
            |
                0 <= j < steps.len() && (#[trigger] steps[j]).file_name == name,
{
    assert forall|name: Seq<char>| #[trigger]
        copied(files, steps).contains_key(name) <==> files.contains_key(name) || exists|j: int|
            0 <= j < steps.len() && (#[trigger] steps[j]).file_name == name by {
        lemma_copied_lookup(files, steps, name);
        lemma_last_source_is_some(steps, name);
    }
}

/// A step's copy is what the folder holds under the step's name afterwards,
/// unless a later step copies under the same name.
pub proof fn lemma_copy_stays(files: Map<Seq<char>, Seq<char>>, steps: Seq<CopyStepView>, j: int)
    requires
        0 <= j < steps.len(),
        forall|k: int| j < k < steps.len() ==> (#[trigger] steps[k]).file_name != steps[j].file_name,
    ensures
        copied(files, steps).contains_key(steps[j].file_name),
        copied(files, steps)[steps[j].file_name] == steps[j].source,
    decreases steps.len(),
{
    if j < steps.len() - 1 {
        let front = steps.drop_last();
        assert(steps[steps.len() - 1].file_name != steps[j].file_name);
        assert(front[j] == steps[j]);
        assert forall|k: int| j < k < front.len() implies (#[trigger] front[k]).file_name
            != front[j].file_name by {
            assert(front[k] == steps[k]);
        }
        lemma_copy_stays(files, front, j);
    }
}

/// Carrying out the same steps a second time changes nothing.
pub proof fn lemma_copied_twice(files: Map<Seq<char>, Seq<char>>, steps: Seq<CopyStepView>)
    ensures
        copied(copied(files, steps), steps) == copied(files, steps),
{
    let once = copied(files, steps);
    let twice = copied(once, steps);
    assert forall|name: Seq<char>| #[trigger]
        twice.dom().contains(name) == once.dom().contains(name) by {
        lemma_copied_lookup(files, steps, name);
        lemma_copied_lookup(once, steps, name);
    }
    assert forall|name: Seq<char>| #[trigger] once.dom().contains(name) implies twice[name]
        == once[name] by {
        lemma_copied_lookup(files, steps, name);
        lemma_copied_lookup(once, steps, name);
    }
    assert(twice =~= once);
}

/// After an archive the target folder holds, besides what it held before, a
/// file under the name of each entry that the archive takes, and nothing else.
pub proof fn lemma_archive_adds_the_selected_names(
    files: Map<Seq<char>, Seq<char>>,
    digits: nat,
    mode: ArchiveMode,
    entries: Seq<CandidateView>,
    name: Seq<char>,
)
    ensures
        copied(files, planned_steps(digits, mode, entries)).contains_key(name)
            <==> files.contains_key(name) || exists|i: int|
            0 <= i < entries.len() && selects(digits, mode, #[trigger] entries[i])
                && entries[i].file_name == name,
{
    let steps = planned_steps(digits, mode, entries);
    lemma_copied_lookup(files, steps, name);
    lemma_last_source_is_some(steps, name);
    if exists|j: int| 0 <= j < steps.len() && (#[trigger] steps[j]).file_name == name {
        let j = choose|j: int| 0 <= j < steps.len() && (#[trigger] steps[j]).file_name == name;
        lemma_steps_are_of_selected(digits, mode, entries, j);
    }
    if exists|i: int|
        0 <= i < entries.len() && selects(digits, mode, #[trigger] entries[i])
            && entries[i].file_name == name {
        let i = choose|i: int|
            0 <= i < entries.len() && selects(digits, mode, #[trigger] entries[i])
                && entries[i].file_name == name;
        lemma_selected_have_steps(digits, mode, entries, i);
        let j = choose|j: int| 0 <= j < steps.len() && steps[j] == copy_step_of(entries[i]);
        assert(steps[j].file_name == name);
    }
}

/// After an archive the target folder holds a copy of each entry that the
/// archive takes, under the entry's own name, provided that the archive takes
/// no other file of that name: of two such files the later replaces the
/// earlier.
pub proof fn lemma_archive_holds_a_copy(
    files: Map<Seq<char>, Seq<char>>,
    digits: nat,
    mode: ArchiveMode,
    entries: Seq<CandidateView>,
    i: int,
)
    requires
        0 <= i < entries.len(),
        selects(digits, mode, entries[i]),
        forall|k: int|
            0 <= k < entries.len() && selects(digits, mode, #[trigger] entries[k])
                && entries[k].file_name == entries[i].file_name ==> entries[k].path
                == entries[i].path,
    ensures
        copied(files, planned_steps(digits, mode, entries)).contains_key(entries[i].file_name),
        copied(files, planned_steps(digits, mode, entries))[entries[i].file_name]
            == entries[i].path,
{
    let steps = planned_steps(digits, mode, entries);
    let name = entries[i].file_name;
    lemma_selected_have_steps(digits, mode, entries, i);
    let at = choose|j: int| 0 <= j < steps.len() && steps[j] == copy_step_of(entries[i]);
    assert(steps[at].file_name == name);
    lemma_last_source_is_some(steps, name);
    lemma_last_source_is_of_a_step(steps, name);
    let j = choose|j: int|
        0 <= j < steps.len() && (#[trigger] steps[j]).file_name == name && steps[j].source
            == last_source(steps, name)->0;
    lemma_steps_are_of_selected(digits, mode, entries, j);
    lemma_copied_lookup(files, steps, name);
}

/// An archive can be repeated. The plan made for a folder fits it, whether the
/// folder exists or not; after it the folder exists; the plan made then for the
/// same entries creates no folder, fits again, and leaves the folder as the
/// first left it.
pub proof fn lemma_archive_twice(
    state: FolderState,
    digits: nat,
    mode: ArchiveMode,
    entries: Seq<CandidateView>,
    destination: Seq<char>,
    folder: Seq<char>,
)
    ensures
        ({
            let first = planned_archive(digits, mode, entries, destination, folder, state.exists);
            let between = carried_out(state, first);
            let second = planned_archive(digits, mode, entries, destination, folder, between.exists);
            &&& fits(state, first)
            &&& between.exists
            &&& !second.create_folder
            &&& fits(between, second)
            &&& carried_out(between, second) == between
        }),
{
    lemma_copied_twice(state.files, planned_steps(digits, mode, entries));
}

} // verus!
