//! What a save does to the files. The host's directory is modelled by the
//! two files that a save touches, and each file operation by what may hold
//! after it; the laws then say what the save machine guarantees of the note
//! on disk. They hold of a host whose operations behave as `may_follow`
//! says, a rename above all: it replaces the target in one step or not at
//! all.

use crate::store::{backoff_millis, initial, next, verdict};
use crate::store::{ActionModel, OutcomeModel, SaveModel, SavePhase};
use vstd::prelude::*;

verus! {

/// The target and the temporary file of one note: what each holds, or `None`
/// where it does not exist.
pub struct Files {
    pub target: Option<Seq<char>>,
    pub temp: Option<Seq<char>>,
}

/// The operation whose outcome a save is waiting for.
pub open spec fn in_flight(save: SaveModel) -> ActionModel {
    match save.phase {
        SavePhase::EnsuringDir => ActionModel::EnsureDir,
        SavePhase::WritingTemp => ActionModel::WriteTemp,
        SavePhase::Renaming => ActionModel::Rename,
        SavePhase::Waiting => ActionModel::Sleep { millis: backoff_millis(save.attempts) },
        SavePhase::DirectAfterTemp | SavePhase::DirectAfterRename => ActionModel::WriteTarget,
        SavePhase::RemovingTemp => ActionModel::RemoveTemp,
        SavePhase::Finished => verdict(save.failure),
    }
}

/// The files `after` an operation that found them as `before` and ended with
/// `outcome`, where `content` is the note being saved.
///
/// A write touches only its own file; when it is done the file holds the
/// content, and when it failed the file may hold anything. A rename that is
/// done has moved the temporary file to the target; one that failed has
/// changed nothing. A removal that is done leaves no temporary file. Nothing
/// else touches the two files.
pub open spec fn may_follow(
    before: Files,
    action: ActionModel,
    outcome: OutcomeModel,
    content: Seq<char>,
    after: Files,
) -> bool {
    let done = outcome == OutcomeModel::Done;
    match action {
        ActionModel::WriteTemp => {
            &&& after.target == before.target
            &&& done ==> after.temp == Some(content)
        },
        ActionModel::Rename => if done {
            after.target == before.temp && after.temp is None
        } else {
            after == before
        },
        ActionModel::WriteTarget => {
            &&& after.temp == before.temp
            &&& done ==> after.target == Some(content)
        },
        ActionModel::RemoveTemp => {
            &&& after.target == before.target
            &&& after.temp == (if done {
                None
            } else {
                before.temp
            })
        },
        _ => after == before,
    }
}

/// The target holds what it held before the save, or the new content in
/// full: nothing in between.
pub open spec fn intact(files: Files, previous: Option<Seq<char>>, content: Seq<char>) -> bool {
    files.target == previous || files.target == Some(content)
}

/// While a rename is under way or paused, the temporary file holds the new
/// content in full.
pub open spec fn staged(save: SaveModel, files: Files, content: Seq<char>) -> bool {
    save.phase == SavePhase::Renaming || save.phase == SavePhase::Waiting ==> files.temp == Some(
        content,
    )
}

/// The save is on the atomic path: it is not waiting for a direct write.
pub open spec fn on_atomic_path(save: SaveModel) -> bool {
    save.phase != SavePhase::DirectAfterTemp && save.phase != SavePhase::DirectAfterRename
}

/// The operation that a transition asks for is the one that the save then
/// waits for.
pub proof fn law_next_in_flight(save: SaveModel, outcome: OutcomeModel)
    requires
        save.wf(),
    ensures
        next(save, outcome).1 == in_flight(next(save, outcome).0),
{
}

/// Atomicity: as long as a save is on the atomic path, every operation
/// leaves the target holding either what it held before the save or the new
/// content in full, whatever the operation's outcome. A reader of the target
/// therefore sees one of the two, never part of a note. The direct write of
/// the fallback is the one operation of which this is not claimed.
pub proof fn law_atomic_path(
    save: SaveModel,
    outcome: OutcomeModel,
    before: Files,
    after: Files,
    previous: Option<Seq<char>>,
    content: Seq<char>,
)
    requires
        save.wf(),
        on_atomic_path(save),
        intact(before, previous, content),
        staged(save, before, content),
        may_follow(before, in_flight(save), outcome, content, after),
    ensures
        intact(after, previous, content),
        staged(next(save, outcome).0, after, content),
{
}

/// No temporary file is left behind: when a save finishes, by a rename that
/// is done or after a removal that is done, the temporary file is gone.
pub proof fn law_no_stray_temp(
    save: SaveModel,
    outcome: OutcomeModel,
    before: Files,
    after: Files,
    content: Seq<char>,
)
    requires
        save.phase != SavePhase::Finished,
        next(save, outcome).0.phase == SavePhase::Finished,
        outcome == OutcomeModel::Done,
        may_follow(before, in_flight(save), outcome, content, after),
    ensures
        save.phase == SavePhase::Renaming || save.phase == SavePhase::RemovingTemp,
        after.temp is None,
{
}

/// A save in which nothing fails ends with the new content in the target and
/// no temporary file, by one write of the temporary file and one rename.
pub proof fn law_clean_save(
    directory: OutcomeModel,
    found: Files,
    written: Files,
    renamed: Files,
    content: Seq<char>,
)
    requires
        may_follow(found, ActionModel::WriteTemp, OutcomeModel::Done, content, written),
        may_follow(written, ActionModel::Rename, OutcomeModel::Done, content, renamed),
    ensures
        ({
            let (writing, first) = next(initial(), directory);
            let (renaming, second) = next(writing, OutcomeModel::Done);
            let (finished, third) = next(renaming, OutcomeModel::Done);
            &&& first == ActionModel::WriteTemp
            &&& second == ActionModel::Rename
            &&& third == ActionModel::Succeed
            &&& finished.phase == SavePhase::Finished
        }),
        renamed.target == Some(content),
        renamed.temp is None,
{
}

/// Fallback: when the atomic path has failed and the direct write and the
/// removal that follow are done, the target holds the new content, no
/// temporary file is left, and the save reports success.
pub proof fn law_fallback_files(
    save: SaveModel,
    before: Files,
    written: Files,
    after: Files,
    content: Seq<char>,
)
    requires
        save.phase == SavePhase::DirectAfterTemp || save.phase == SavePhase::DirectAfterRename,
        may_follow(before, ActionModel::WriteTarget, OutcomeModel::Done, content, written),
        may_follow(written, ActionModel::RemoveTemp, OutcomeModel::Done, content, after),
    ensures
        ({
            let (removing, remove) = next(save, OutcomeModel::Done);
            let (finished, report) = next(removing, OutcomeModel::Done);
            &&& remove == ActionModel::RemoveTemp
            &&& report == ActionModel::Succeed
            &&& finished.phase == SavePhase::Finished
        }),
        after.target == Some(content),
        after.temp is None,
{
}

} // verus!
