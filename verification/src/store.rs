//! The note store's decisions. A note is saved by writing a sibling temporary
//! file and renaming it over the target, so that the target never holds half
//! a note; where that path fails, the note is written to the target directly
//! rather than lost. The host performs each file operation and reports how it
//! went; `SaveMachine` answers with the next one.

use vstd::prelude::*;

verus! {

/// How often the rename of the temporary file is tried.
pub const MAX_RENAME_ATTEMPTS: u32 = 5;

/// The pause after the n-th failed rename is n times this many milliseconds.
pub const BACKOFF_STEP_MILLIS: u64 = 100;

/// The name of the managed directory below the user's documents.
pub fn notes_dir() -> (name: String)
    ensures
        name@ == "SoNotes"@,
{
    String::from_str("SoNotes")
}

pub open spec fn temp_name_of(filename: Seq<char>) -> Seq<char> {
    filename + ".tmp"@
}

/// The name of the temporary file that belongs to a note.
pub fn temp_name(filename: &str) -> (name: String)
    ensures
        name@ == temp_name_of(filename@),
{
    String::from_str(filename).concat(".tmp")
}

/// The name is the parent segment `..`.
pub open spec fn is_parent_segment(name: Seq<char>) -> bool {
    name.len() == 2 && name[0] == '.' && name[1] == '.'
}

/// A name that stays inside the managed directory: it holds no path
/// separator, `/` or `\`, and is not the parent segment.
pub open spec fn safe_filename(name: Seq<char>) -> bool {
    &&& forall|i: int| 0 <= i < name.len() ==> name[i] != '/' && name[i] != '\\'
    &&& !is_parent_segment(name)
}

/// Whether a caller's file name may be joined to the managed directory.
pub fn filename_is_safe(name: &str) -> (safe: bool)
    ensures
        safe == safe_filename(name@),
{
    let n = name.unicode_len();
    let mut i: usize = 0;
    while i < n
        invariant
            i <= n,
            n == name@.len(),
            forall|j: int| 0 <= j < i ==> name@[j] != '/' && name@[j] != '\\',
        decreases n - i,
    {
        let c = name.get_char(i);
        if c == '/' || c == '\\' {
            return false;
        }
        i += 1;
    }
    !(n == 2 && name.get_char(0) == '.' && name.get_char(1) == '.')
}

/// Why a note could not be loaded.
#[derive(Clone, Debug, PartialEq, Eq)]
pub enum LoadError {
    /// There is no file of that name.
    NotFound,
    /// The file is there and could not be read; the host's message.
    ReadFailed(String),
}

pub open spec fn load_error_text(error: LoadError) -> Seq<char> {
    match error {
        LoadError::NotFound => "File not found"@,
        LoadError::ReadFailed(message) => message@,
    }
}

impl LoadError {
    /// The text that the caller is shown.
    pub fn message(&self) -> (text: String)
        ensures
            text@ == load_error_text(*self),
    {
        match self {
            LoadError::NotFound => String::from_str("File not found"),
            LoadError::ReadFailed(message) => message.clone(),
        }
    }
}

/// The first step of a load: a file is read only if it exists, and a missing
/// one is `NotFound`, never a read failure.
pub fn load_precheck(exists: bool) -> (go: Result<(), LoadError>)
    ensures
        go == (if exists {
            Ok::<(), LoadError>(())
        } else {
            Err::<(), LoadError>(LoadError::NotFound)
        }),
{
    if exists {
        Ok(())
    } else {
        Err(LoadError::NotFound)
    }
}

/// The second step of a load: the content as it was read, or the host's
/// message as a read failure.
pub fn load_result(read: Result<String, String>) -> (loaded: Result<String, LoadError>)
    ensures
        loaded == (match read {
            Ok(content) => Ok::<String, LoadError>(content),
            Err(message) => Err::<String, LoadError>(LoadError::ReadFailed(message)),
        }),
{
    match read {
        Ok(content) => Ok(content),
        Err(message) => Err(LoadError::ReadFailed(message)),
    }
}

/// Which half of the atomic path failed before the direct write failed too.
#[derive(Clone, Copy, Debug, PartialEq, Eq)]
pub enum SaveStage {
    TempWrite,
    Rename,
}

/// A save fails only when the atomic path and the direct write both failed;
/// the error carries the host's message for each.
#[derive(Clone, Debug, PartialEq, Eq)]
pub struct SaveError {
    pub stage: SaveStage,
    pub atomic: String,
    pub direct: String,
}

pub struct SaveErrorModel {
    pub stage: SaveStage,
    pub atomic: Seq<char>,
    pub direct: Seq<char>,
}

impl View for SaveError {
    type V = SaveErrorModel;

    open spec fn view(&self) -> SaveErrorModel {
        SaveErrorModel { stage: self.stage, atomic: self.atomic@, direct: self.direct@ }
    }
}

/// The text of a failed save: both messages, the atomic path's first.
pub open spec fn save_error_text(error: SaveErrorModel) -> Seq<char> {
    match error.stage {
        SaveStage::TempWrite => "Failed to write tmp: "@ + error.atomic
            + ". Direct write failed: "@ + error.direct,
        SaveStage::Rename => "Atomic save failed ("@ + error.atomic
            + "). Direct save failed: "@ + error.direct,
    }
}

impl SaveError {
    /// The text that the caller is shown.
    pub fn message(&self) -> (text: String)
        ensures
            text@ == save_error_text(self@),
    {
        match self.stage {
            SaveStage::TempWrite => {
                let mut text = String::from_str("Failed to write tmp: ");
                text.append(self.atomic.as_str());
                text.append(". Direct write failed: ");
                text.append(self.direct.as_str());
                text
            },
            SaveStage::Rename => {
                let mut text = String::from_str("Atomic save failed (");
                text.append(self.atomic.as_str());
                text.append("). Direct save failed: ");
                text.append(self.direct.as_str());
                text
            },
        }
    }

    fn copy(&self) -> (twin: SaveError)
        ensures
            twin@ == self@,
    {
        SaveError { stage: self.stage, atomic: self.atomic.clone(), direct: self.direct.clone() }
    }
}

/// The two kinds of failure of a file operation.
#[derive(Clone, Copy, Debug, PartialEq, Eq)]
pub enum IoFailure {
    /// Trying again may help.
    Transient,
    /// The file is not there: trying again cannot help.
    Terminal,
}

/// How the host's last operation went.
#[derive(Clone, Debug, PartialEq, Eq)]
pub enum Outcome {
    Done,
    /// It failed, with the host's message.
    Failed { message: String, kind: IoFailure },
}

pub enum OutcomeModel {
    Done,
    Failed { message: Seq<char>, kind: IoFailure },
}

impl View for Outcome {
    type V = OutcomeModel;

    open spec fn view(&self) -> OutcomeModel {
        match self {
            Outcome::Done => OutcomeModel::Done,
            Outcome::Failed { message, kind } => OutcomeModel::Failed {
                message: message@,
                kind: *kind,
            },
        }
    }
}

/// What the host is to do next.
#[derive(Clone, Debug, PartialEq, Eq)]
pub enum SaveAction {
    /// Create the managed directory if it is not there.
    EnsureDir,
    /// Write the content to the temporary file.
    WriteTemp,
    /// Rename the temporary file to the target.
    Rename,
    /// Wait.
    Sleep { millis: u64 },
    /// Write the content to the target itself.
    WriteTarget,
    /// Delete the temporary file.
    RemoveTemp,
    /// Report that the note is saved.
    Succeed,
    /// Report that the note could not be saved.
    Fail(SaveError),
}

pub enum ActionModel {
    EnsureDir,
    WriteTemp,
    Rename,
    Sleep { millis: nat },
    WriteTarget,
    RemoveTemp,
    Succeed,
    Fail(SaveErrorModel),
}

impl View for SaveAction {
    type V = ActionModel;

    open spec fn view(&self) -> ActionModel {
        match self {
            SaveAction::EnsureDir => ActionModel::EnsureDir,
            SaveAction::WriteTemp => ActionModel::WriteTemp,
            SaveAction::Rename => ActionModel::Rename,
            SaveAction::Sleep { millis } => ActionModel::Sleep { millis: *millis as nat },
            SaveAction::WriteTarget => ActionModel::WriteTarget,
            SaveAction::RemoveTemp => ActionModel::RemoveTemp,
            SaveAction::Succeed => ActionModel::Succeed,
            SaveAction::Fail(error) => ActionModel::Fail(error@),
        }
    }
}

/// Which operation's outcome a save is waiting for.
#[derive(Clone, Copy, Debug, PartialEq, Eq)]
pub enum SavePhase {
    EnsuringDir,
    WritingTemp,
    /// The direct write that follows a failed temporary write.
    DirectAfterTemp,
    Renaming,
    /// The pause between two renames.
    Waiting,
    /// The direct write that follows the last failed rename.
    DirectAfterRename,
    RemovingTemp,
    Finished,
}

/// A save as contracts see it.
pub struct SaveModel {
    pub phase: SavePhase,
    /// Renames asked for so far.
    pub attempts: nat,
    /// The message of the atomic path's last failure.
    pub atomic_error: Seq<char>,
    /// The error to report once the save is finished, if it failed.
    pub failure: Option<SaveErrorModel>,
}

impl SaveModel {
    /// What holds of every save that began with `initial`: no more than
    /// `MAX_RENAME_ATTEMPTS` renames were asked for, at least one once a
    /// rename is under way, a pause is made only while attempts are left, and
    /// no failure is recorded before the last direct write was answered.
    pub open spec fn wf(self) -> bool {
        &&& self.attempts <= MAX_RENAME_ATTEMPTS
        &&& self.phase == SavePhase::Renaming ==> self.attempts >= 1
        &&& self.phase == SavePhase::Waiting ==> 1 <= self.attempts < MAX_RENAME_ATTEMPTS
        &&& self.failure is Some ==> self.phase == SavePhase::RemovingTemp || self.phase
            == SavePhase::Finished
    }

    pub open spec fn at(self, phase: SavePhase) -> SaveModel {
        SaveModel { phase, ..self }
    }
}

/// A save that has just begun: the host was asked for the directory.
pub open spec fn initial() -> SaveModel {
    SaveModel {
        phase: SavePhase::EnsuringDir,
        attempts: 0,
        atomic_error: Seq::empty(),
        failure: None,
    }
}

/// The report of a finished save.
pub open spec fn verdict(failure: Option<SaveErrorModel>) -> ActionModel {
    match failure {
        None => ActionModel::Succeed,
        Some(error) => ActionModel::Fail(error),
    }
}

/// The pause after the n-th failed rename.
pub open spec fn backoff_millis(attempts: nat) -> nat {
    BACKOFF_STEP_MILLIS as nat * attempts
}

/// The half of the atomic path that had failed when a direct write began.
pub open spec fn failed_stage(phase: SavePhase) -> SaveStage {
    if phase == SavePhase::DirectAfterTemp {
        SaveStage::TempWrite
    } else {
        SaveStage::Rename
    }
}

/// The transition: the save after the host's `outcome`, and what the host is
/// to do next.
///
/// The directory is made on a best effort: whether or not that worked, the
/// temporary file is written next, and a missing directory shows as the
/// failure of the writes. A failed temporary write leads to the direct
/// write. A failed rename is tried again after a pause while fewer than
/// `MAX_RENAME_ATTEMPTS` were made and the failure is transient; otherwise
/// the direct write follows. The outcome of the direct write is the save's.
/// After it the temporary file is removed on a best effort, so that none is
/// left behind, and then comes the report. A finished save repeats its
/// report.
pub open spec fn next(save: SaveModel, outcome: OutcomeModel) -> (SaveModel, ActionModel) {
    match save.phase {
        SavePhase::EnsuringDir => (save.at(SavePhase::WritingTemp), ActionModel::WriteTemp),
        SavePhase::WritingTemp => match outcome {
            OutcomeModel::Done => (
                SaveModel { phase: SavePhase::Renaming, attempts: 1, ..save },
                ActionModel::Rename,
            ),
            OutcomeModel::Failed { message, .. } => (
                SaveModel { phase: SavePhase::DirectAfterTemp, atomic_error: message, ..save },
                ActionModel::WriteTarget,
            ),
        },
        SavePhase::Renaming => match outcome {
            OutcomeModel::Done => (save.at(SavePhase::Finished), ActionModel::Succeed),
            OutcomeModel::Failed { message, kind } => {
                if kind == IoFailure::Terminal || save.attempts >= MAX_RENAME_ATTEMPTS {
                    (
                        SaveModel {
                            phase: SavePhase::DirectAfterRename,
                            atomic_error: message,
                            ..save
                        },
                        ActionModel::WriteTarget,
                    )
                } else {
                    (
                        SaveModel { phase: SavePhase::Waiting, atomic_error: message, ..save },
                        ActionModel::Sleep { millis: backoff_millis(save.attempts) },
                    )
                }
            },
        },
        SavePhase::Waiting => (
            SaveModel { phase: SavePhase::Renaming, attempts: save.attempts + 1, ..save },
            ActionModel::Rename,
        ),
        SavePhase::DirectAfterTemp | SavePhase::DirectAfterRename => {
            let failure = match outcome {
                OutcomeModel::Done => None,
                OutcomeModel::Failed { message, .. } => Some(
                    SaveErrorModel {
                        stage: failed_stage(save.phase),
                        atomic: save.atomic_error,
                        direct: message,
                    },
                ),
            };
            (SaveModel { phase: SavePhase::RemovingTemp, failure, ..save }, ActionModel::RemoveTemp)
        },
        SavePhase::RemovingTemp | SavePhase::Finished => (
            save.at(SavePhase::Finished),
            verdict(save.failure),
        ),
    }
}

/// One save of one note, from the first request to the report.
pub struct SaveMachine {
    phase: SavePhase,
    attempts: u32,
    atomic_error: String,
    failure: Option<SaveError>,
}

impl View for SaveMachine {
    type V = SaveModel;

    closed spec fn view(&self) -> SaveModel {
        SaveModel {
            phase: self.phase,
            attempts: self.attempts as nat,
            atomic_error: self.atomic_error@,
            failure: match self.failure {
                Some(error) => Some(error@),
                None => None,
            },
        }
    }
}

impl SaveMachine {
    #[verifier::type_invariant]
    spec fn well_formed(self) -> bool {
        self@.wf()
    }

    /// Begins a save. The first thing asked of the host is the directory.
    pub fn start() -> (begun: (SaveMachine, SaveAction))
        ensures
            begun.0@ == initial(),
            begun.0@.wf(),
            begun.1@ == ActionModel::EnsureDir,
    {
        let machine = SaveMachine {
            phase: SavePhase::EnsuringDir,
            attempts: 0,
            atomic_error: String::new(),
            failure: None,
        };
        (machine, SaveAction::EnsureDir)
    }

    pub fn phase(&self) -> (phase: SavePhase)
        ensures
            phase == self@.phase,
    {
        self.phase
    }

    /// Renames asked for so far.
    pub fn attempts(&self) -> (attempts: u32)
        ensures
            attempts == self@.attempts,
    {
        self.attempts
    }

    pub fn is_finished(&self) -> (finished: bool)
        ensures
            finished == (self@.phase == SavePhase::Finished),
    {
        match self.phase {
            SavePhase::Finished => true,
            _ => false,
        }
    }

    /// Takes the outcome of the operation that was asked for last and returns
    /// the next one.
    pub fn advance(&mut self, outcome: Outcome) -> (action: SaveAction)
        ensures
            final(self)@.wf(),
            (final(self)@, action@) == next(old(self)@, outcome@),
    {
        proof {
            use_type_invariant(&*self);
        }
        match self.phase {
            SavePhase::EnsuringDir => {
                self.phase = SavePhase::WritingTemp;
                SaveAction::WriteTemp
            },
            SavePhase::WritingTemp => match outcome {
                Outcome::Done => {
                    self.attempts = 1;
                    self.phase = SavePhase::Renaming;
                    SaveAction::Rename
                },
                Outcome::Failed { message, kind: _ } => {
                    self.phase = SavePhase::DirectAfterTemp;
                    self.atomic_error = message;
                    SaveAction::WriteTarget
                },
            },
            SavePhase::Renaming => match outcome {
                Outcome::Done => {
                    self.phase = SavePhase::Finished;
                    SaveAction::Succeed
                },
                Outcome::Failed { message, kind } => {
                    self.atomic_error = message;
                    let terminal = match kind {
                        IoFailure::Terminal => true,
                        IoFailure::Transient => false,
                    };
                    if terminal || self.attempts >= MAX_RENAME_ATTEMPTS {
                        self.phase = SavePhase::DirectAfterRename;
                        SaveAction::WriteTarget
                    } else {
                        self.phase = SavePhase::Waiting;
                        let millis: u64 = BACKOFF_STEP_MILLIS * (self.attempts as u64);
                        SaveAction::Sleep { millis }
                    }
                },
            },
            SavePhase::Waiting => {
                self.phase = SavePhase::Renaming;
                self.attempts = self.attempts + 1;
                SaveAction::Rename
            },
            SavePhase::DirectAfterTemp | SavePhase::DirectAfterRename => {
                let stage = match self.phase {
                    SavePhase::DirectAfterTemp => SaveStage::TempWrite,
                    _ => SaveStage::Rename,
                };
                self.phase = SavePhase::RemovingTemp;
                self.failure = match outcome {
                    Outcome::Done => None,
                    Outcome::Failed { message, kind: _ } => Some(
                        SaveError {
                            stage,
                            atomic: self.atomic_error.clone(),
                            direct: message,
                        },
                    ),
                };
                SaveAction::RemoveTemp
            },
            SavePhase::RemovingTemp | SavePhase::Finished => {
                self.phase = SavePhase::Finished;
                match &self.failure {
                    None => SaveAction::Succeed,
                    Some(error) => SaveAction::Fail(error.copy()),
                }
            },
        }
    }
}

/// A transient failure of a rename, with the host's message.
pub open spec fn transient(message: Seq<char>) -> OutcomeModel {
    OutcomeModel::Failed { message, kind: IoFailure::Transient }
}

/// The save after `outcomes` were reported one after the other.
pub open spec fn after(save: SaveModel, outcomes: Seq<OutcomeModel>) -> SaveModel
    decreases outcomes.len(),
{
    if outcomes.len() == 0 {
        save
    } else {
        after(next(save, outcomes[0]).0, outcomes.drop_first())
    }
}

/// How many renames the host is asked for while `outcomes` are reported.
pub open spec fn renames_issued(save: SaveModel, outcomes: Seq<OutcomeModel>) -> nat
    decreases outcomes.len(),
{
    if outcomes.len() == 0 {
        0
    } else {
        let (then, action) = next(save, outcomes[0]);
        let one: nat = if action == ActionModel::Rename {
            1
        } else {
            0
        };
        one + renames_issued(then, outcomes.drop_first())
    }
}

/// How many renames a save may still ask for.
pub open spec fn renames_left(save: SaveModel) -> nat {
    match save.phase {
        SavePhase::EnsuringDir | SavePhase::WritingTemp => MAX_RENAME_ATTEMPTS as nat,
        SavePhase::Renaming | SavePhase::Waiting => (MAX_RENAME_ATTEMPTS - save.attempts) as nat,
        _ => 0,
    }
}

/// Well-formedness is kept by every transition.
pub proof fn law_wf_preserved(save: SaveModel, outcome: OutcomeModel)
    requires
        save.wf(),
    ensures
        next(save, outcome).0.wf(),
{
}

/// Retry bound: whatever the host reports, and however long it goes on
/// reporting, a save asks for no more renames than it has left.
pub proof fn law_retry_bound(save: SaveModel, outcomes: Seq<OutcomeModel>)
    requires
        save.wf(),
    ensures
        renames_issued(save, outcomes) <= renames_left(save),
    decreases outcomes.len(),
{
    if outcomes.len() > 0 {
        law_retry_bound(next(save, outcomes[0]).0, outcomes.drop_first());
    }
}

/// Retry bound, from the start: in the whole of a save the host is asked for
/// at most `MAX_RENAME_ATTEMPTS` renames, whatever it reports.
pub proof fn law_retry_bound_from_start(outcomes: Seq<OutcomeModel>)
    ensures
        renames_issued(initial(), outcomes) <= MAX_RENAME_ATTEMPTS,
{
    law_retry_bound(initial(), outcomes);
}

/// A rename that fails transiently is tried again after a pause of
/// `BACKOFF_STEP_MILLIS` times the number of attempts made, as long as fewer
/// than `MAX_RENAME_ATTEMPTS` were made; the failure of the last attempt
/// leads to the direct write with no pause before it.
pub proof fn law_transient_retry(save: SaveModel, message: Seq<char>, pause: OutcomeModel)
    requires
        save.wf(),
        save.phase == SavePhase::Renaming,
    ensures
        save.attempts < MAX_RENAME_ATTEMPTS ==> {
            let (waiting, sleep) = next(save, transient(message));
            let (retrying, rename) = next(waiting, pause);
            &&& sleep == ActionModel::Sleep { millis: backoff_millis(save.attempts) }
            &&& rename == ActionModel::Rename
            &&& retrying.phase == SavePhase::Renaming
            &&& retrying.attempts == save.attempts + 1
            &&& retrying.atomic_error == message
        },
        save.attempts == MAX_RENAME_ATTEMPTS ==> {
            let (direct, write) = next(save, transient(message));
            &&& write == ActionModel::WriteTarget
            &&& direct.phase == SavePhase::DirectAfterRename
            &&& direct.attempts == MAX_RENAME_ATTEMPTS
            &&& direct.atomic_error == message
        },
{
}

/// Retry bound, from below: when every rename fails transiently, the first
/// one asked for is followed by four more, with pauses of 100, 200, 300 and
/// 400 milliseconds between them, and the fifth failure leads to the direct
/// write. `errors` holds the five failures' messages and `pause` what the
/// host reports of each pause.
pub proof fn law_transient_exhaustion(
    save: SaveModel,
    errors: Seq<Seq<char>>,
    pause: OutcomeModel,
)
    requires
        save.wf(),
        save.phase == SavePhase::Renaming,
        save.attempts == 1,
        errors.len() == MAX_RENAME_ATTEMPTS,
    ensures
        ({
            let outcomes = seq![
                transient(errors[0]),
                pause,
                transient(errors[1]),
                pause,
                transient(errors[2]),
                pause,
                transient(errors[3]),
                pause,
            ];
            let last = after(save, outcomes);
            &&& renames_issued(save, outcomes) == MAX_RENAME_ATTEMPTS - 1
            &&& last.phase == SavePhase::Renaming
            &&& last.attempts == MAX_RENAME_ATTEMPTS
            &&& next(last, transient(errors[4])).1 == ActionModel::WriteTarget
            &&& next(last, transient(errors[4])).0.phase == SavePhase::DirectAfterRename
            &&& next(last, transient(errors[4])).0.atomic_error == errors[4]
        }),
{
    let outcomes = seq![
        transient(errors[0]),
        pause,
        transient(errors[1]),
        pause,
        transient(errors[2]),
        pause,
        transient(errors[3]),
        pause,
    ];
    law_two_steps(save, outcomes);
    let s2 = after(save, outcomes.take(2));
    law_two_steps(s2, outcomes.skip(2));
    let s4 = after(s2, outcomes.skip(2).take(2));
    law_two_steps(s4, outcomes.skip(4));
    let s6 = after(s4, outcomes.skip(4).take(2));
    law_two_steps(s6, outcomes.skip(6));
    assert(outcomes.skip(2).skip(2) =~= outcomes.skip(4));
    assert(outcomes.skip(4).skip(2) =~= outcomes.skip(6));
    assert(outcomes.skip(6).skip(2) =~= Seq::<OutcomeModel>::empty());
}

/// Reporting a sequence of at least two outcomes is reporting the first two
/// and then the rest.
proof fn law_two_steps(save: SaveModel, outcomes: Seq<OutcomeModel>)
    requires
        outcomes.len() >= 2,
    ensures
        ({
            let (first, a) = next(save, outcomes[0]);
            let (second, b) = next(first, outcomes[1]);
            let one: nat = if a == ActionModel::Rename { 1 } else { 0 };
            let two: nat = if b == ActionModel::Rename { 1 } else { 0 };
            &&& after(save, outcomes.take(2)) == second
            &&& after(save, outcomes) == after(second, outcomes.skip(2))
            &&& renames_issued(save, outcomes) == one + two + renames_issued(
                second,
                outcomes.skip(2),
            )
        }),
{
    let first = next(save, outcomes[0]).0;
    let second = next(first, outcomes[1]).0;
    let tail = outcomes.drop_first();
    assert(tail[0] == outcomes[1]);
    assert(tail.drop_first() =~= outcomes.skip(2));
    let head = outcomes.take(2);
    assert(head[0] == outcomes[0]);
    assert(head.drop_first()[0] == outcomes[1]);
    assert(head.drop_first().drop_first() =~= Seq::<OutcomeModel>::empty());
    reveal_with_fuel(after, 3);
    reveal_with_fuel(renames_issued, 3);
}

/// An upper bound on the operations that a save still asks for before it
/// reports.
pub open spec fn steps_left(save: SaveModel) -> nat {
    match save.phase {
        SavePhase::EnsuringDir => 2 * MAX_RENAME_ATTEMPTS as nat + 3,
        SavePhase::WritingTemp => 2 * MAX_RENAME_ATTEMPTS as nat + 2,
        SavePhase::Renaming => (2 * (MAX_RENAME_ATTEMPTS - save.attempts) + 3) as nat,
        SavePhase::Waiting => (2 * (MAX_RENAME_ATTEMPTS - save.attempts) + 2) as nat,
        SavePhase::DirectAfterTemp | SavePhase::DirectAfterRename => 2,
        SavePhase::RemovingTemp => 1,
        SavePhase::Finished => 0,
    }
}

/// Every save ends: whatever the host reports, each transition of a save
/// that is not finished brings it closer to its report, which comes after
/// thirteen operations at most. A finished save stays finished.
pub proof fn law_save_terminates(save: SaveModel, outcome: OutcomeModel)
    requires
        save.wf(),
    ensures
        save.phase != SavePhase::Finished ==> steps_left(next(save, outcome).0) < steps_left(save),
        save.phase == SavePhase::Finished ==> next(save, outcome).0 == save,
        steps_left(initial()) == 13,
        steps_left(save) == 0 <==> save.phase == SavePhase::Finished,
{
}

/// A rename that fails because the file is not there is not tried again:
/// whichever attempt it was, the direct write follows at once, with no pause
/// and no further rename.
pub proof fn law_terminal_failure_aborts(save: SaveModel, message: Seq<char>)
    requires
        save.phase == SavePhase::Renaming,
    ensures
        ({
            let (direct, write) = next(
                save,
                OutcomeModel::Failed { message, kind: IoFailure::Terminal },
            );
            &&& write == ActionModel::WriteTarget
            &&& direct.phase == SavePhase::DirectAfterRename
            &&& direct.attempts == save.attempts
            &&& direct.atomic_error == message
            &&& renames_left(direct) == 0
        }),
{
}

/// Fallback: once the atomic path has failed, the note is written to the
/// target itself, the temporary file is removed whether or not that write
/// worked, and the save succeeds exactly when the write did. The outcome of
/// the removal changes nothing. A failure carries the atomic path's last
/// message and the write's.
pub proof fn law_fallback(save: SaveModel, write: OutcomeModel, removal: OutcomeModel)
    requires
        save.phase == SavePhase::DirectAfterTemp || save.phase == SavePhase::DirectAfterRename,
    ensures
        ({
            let (removing, remove) = next(save, write);
            let (end, report) = next(removing, removal);
            &&& remove == ActionModel::RemoveTemp
            &&& end.phase == SavePhase::Finished
            &&& write == OutcomeModel::Done ==> report == ActionModel::Succeed
            &&& write matches OutcomeModel::Failed { message, .. } ==> report == ActionModel::Fail(
                SaveErrorModel {
                    stage: failed_stage(save.phase),
                    atomic: save.atomic_error,
                    direct: message,
                },
            )
        }),
{
}

/// The target is written directly only after a failure: from the start of a
/// save up to the last rename, an operation that went well is never answered
/// with `WriteTarget`. While nothing fails, the only operation that touches
/// the target is the rename of a temporary file that was written in full.
pub proof fn law_direct_write_needs_failure(save: SaveModel, outcome: OutcomeModel)
    requires
        next(save, outcome).1 == ActionModel::WriteTarget,
    ensures
        outcome is Failed,
        save.phase == SavePhase::WritingTemp || save.phase == SavePhase::Renaming,
{
}

/// A rename is asked for only when the temporary file was written, or after
/// the pause that follows an earlier rename.
pub proof fn law_rename_needs_temp(save: SaveModel, outcome: OutcomeModel)
    requires
        next(save, outcome).1 == ActionModel::Rename,
    ensures
        (save.phase == SavePhase::WritingTemp && outcome == OutcomeModel::Done) || save.phase
            == SavePhase::Waiting,
{
}

/// A save fails only when a direct write failed after the atomic path had
/// failed: a failure is recorded only in answer to a failed direct write,
/// and reported only once it is recorded.
pub proof fn law_failure_is_dual(save: SaveModel, outcome: OutcomeModel)
    requires
        save.failure is None,
    ensures
        next(save, outcome).0.failure is Some ==> outcome is Failed && (save.phase
            == SavePhase::DirectAfterTemp || save.phase == SavePhase::DirectAfterRename),
        !(next(save, outcome).1 is Fail),
{
}

} // verus!
