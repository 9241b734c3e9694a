use sonotes::store::{
    filename_is_safe, load_precheck, load_result, notes_dir, temp_name, IoFailure, LoadError, Outcome,
    SaveAction, SaveError, SaveMachine, SavePhase, SaveStage,
};

/// A stand-in for the host's directory: one target, one temporary file, and
/// switches that make the operations fail.
struct Disk {
    target: Option<String>,
    temp: Option<String>,
    fail_temp_write: bool,
    failing_renames: u32,
    rename_not_found: bool,
    fail_direct_write: bool,
    renames: u32,
    direct_writes: u32,
    pauses: Vec<u64>,
    actions: Vec<SaveAction>,
}

fn disk() -> Disk {
    Disk {
        target: None,
        temp: None,
        fail_temp_write: false,
        failing_renames: 0,
        rename_not_found: false,
        fail_direct_write: false,
        renames: 0,
        direct_writes: 0,
        pauses: Vec::new(),
        actions: Vec::new(),
    }
}

fn failed(message: &str, not_found: bool) -> Outcome {
    let kind = if not_found { IoFailure::Terminal } else { IoFailure::Transient };
    Outcome::Failed { message: message.to_string(), kind }
}

fn perform(disk: &mut Disk, action: &SaveAction, content: &str) -> Outcome {
    match action {
        SaveAction::EnsureDir => Outcome::Done,
        SaveAction::WriteTemp => {
            if disk.fail_temp_write {
                failed("temp is read-only", false)
            } else {
                disk.temp = Some(content.to_string());
                Outcome::Done
            }
        }
        SaveAction::Rename => {
            disk.renames += 1;
            if disk.renames <= disk.failing_renames {
                failed(&format!("rename {} refused", disk.renames), disk.rename_not_found)
            } else {
                disk.target = disk.temp.take();
                Outcome::Done
            }
        }
        SaveAction::Sleep { millis } => {
            disk.pauses.push(*millis);
            Outcome::Done
        }
        SaveAction::WriteTarget => {
            disk.direct_writes += 1;
            if disk.fail_direct_write {
                failed("target is locked", false)
            } else {
                disk.target = Some(content.to_string());
                Outcome::Done
            }
        }
        SaveAction::RemoveTemp => {
            disk.temp = None;
            Outcome::Done
        }
        SaveAction::Succeed | SaveAction::Fail(_) => unreachable!(),
    }
}

fn save(disk: &mut Disk, content: &str) -> Result<(), SaveError> {
    let (mut machine, mut action) = SaveMachine::start();
    loop {
        disk.actions.push(action.clone());
        match action {
            SaveAction::Succeed => {
                assert!(machine.is_finished());
                return Ok(());
            }
            SaveAction::Fail(error) => {
                assert!(machine.is_finished());
                return Err(error);
            }
            other => {
                let outcome = perform(disk, &other, content);
                action = machine.advance(outcome);
            }
        }
    }
}

#[test]
fn save_takes_the_atomic_path() {
    let mut d = disk();
    assert_eq!(save(&mut d, "first"), Ok(()));
    assert_eq!(
        d.actions,
        vec![
            SaveAction::EnsureDir,
            SaveAction::WriteTemp,
            SaveAction::Rename,
            SaveAction::Succeed
        ]
    );
    assert_eq!(d.target.as_deref(), Some("first"));
    assert_eq!(d.temp, None);
    assert_eq!(d.direct_writes, 0);
}

#[test]
fn second_save_replaces_the_first_by_rename_only() {
    let mut d = disk();
    assert_eq!(save(&mut d, "c1"), Ok(()));
    assert_eq!(d.target.as_deref(), Some("c1"));
    d.renames = 0;
    assert_eq!(save(&mut d, "c2"), Ok(()));
    assert_eq!(d.target.as_deref(), Some("c2"));
    assert_eq!(d.direct_writes, 0);
    assert_eq!(d.temp, None);
}

#[test]
fn renames_that_always_fail_end_in_a_direct_write() {
    let mut d = disk();
    d.failing_renames = u32::MAX;
    assert_eq!(save(&mut d, "kept"), Ok(()));
    assert_eq!(d.target.as_deref(), Some("kept"));
    assert_eq!(d.temp, None);
    assert_eq!(d.direct_writes, 1);
    let n = d.actions.len();
    assert_eq!(d.actions[n - 3], SaveAction::WriteTarget);
    assert_eq!(d.actions[n - 2], SaveAction::RemoveTemp);
    assert_eq!(d.actions[n - 1], SaveAction::Succeed);
}

#[test]
fn transient_rename_failures_give_five_attempts() {
    let mut d = disk();
    d.failing_renames = u32::MAX;
    assert_eq!(save(&mut d, "x"), Ok(()));
    assert_eq!(d.renames, 5);
    assert_eq!(d.pauses, vec![100, 200, 300, 400]);
    assert_eq!(
        d.actions,
        vec![
            SaveAction::EnsureDir,
            SaveAction::WriteTemp,
            SaveAction::Rename,
            SaveAction::Sleep { millis: 100 },
            SaveAction::Rename,
            SaveAction::Sleep { millis: 200 },
            SaveAction::Rename,
            SaveAction::Sleep { millis: 300 },
            SaveAction::Rename,
            SaveAction::Sleep { millis: 400 },
            SaveAction::Rename,
            SaveAction::WriteTarget,
            SaveAction::RemoveTemp,
            SaveAction::Succeed,
        ]
    );
}

#[test]
fn rename_not_found_gives_one_attempt() {
    let mut d = disk();
    d.failing_renames = u32::MAX;
    d.rename_not_found = true;
    assert_eq!(save(&mut d, "x"), Ok(()));
    assert_eq!(d.renames, 1);
    assert!(d.pauses.is_empty());
    assert_eq!(d.target.as_deref(), Some("x"));
}

#[test]
fn rename_succeeds_on_the_third_attempt() {
    let mut d = disk();
    d.failing_renames = 2;
    assert_eq!(save(&mut d, "late"), Ok(()));
    assert_eq!(d.renames, 3);
    assert_eq!(d.pauses, vec![100, 200]);
    assert_eq!(d.direct_writes, 0);
    assert_eq!(d.target.as_deref(), Some("late"));
    assert_eq!(d.temp, None);
}

#[test]
fn failed_temp_write_falls_back_to_direct_write() {
    let mut d = disk();
    d.fail_temp_write = true;
    assert_eq!(save(&mut d, "direct"), Ok(()));
    assert_eq!(
        d.actions,
        vec![
            SaveAction::EnsureDir,
            SaveAction::WriteTemp,
            SaveAction::WriteTarget,
            SaveAction::RemoveTemp,
            SaveAction::Succeed
        ]
    );
    assert_eq!(d.target.as_deref(), Some("direct"));
    assert_eq!(d.temp, None);
    assert_eq!(d.renames, 0);
}

#[test]
fn temp_and_direct_write_failure_chains_both_messages() {
    let mut d = disk();
    d.fail_temp_write = true;
    d.fail_direct_write = true;
    let error = save(&mut d, "lost").unwrap_err();
    assert_eq!(error.stage, SaveStage::TempWrite);
    assert_eq!(error.atomic, "temp is read-only");
    assert_eq!(error.direct, "target is locked");
    assert_eq!(
        error.message(),
        "Failed to write tmp: temp is read-only. Direct write failed: target is locked"
    );
    assert_eq!(d.target, None);
    let n = d.actions.len();
    assert_eq!(d.actions[n - 2], SaveAction::RemoveTemp);
}

#[test]
fn rename_and_direct_write_failure_chains_both_messages() {
    let mut d = disk();
    d.failing_renames = u32::MAX;
    d.fail_direct_write = true;
    let error = save(&mut d, "lost").unwrap_err();
    assert_eq!(error.stage, SaveStage::Rename);
    assert_eq!(error.atomic, "rename 5 refused");
    assert_eq!(error.direct, "target is locked");
    assert_eq!(
        error.message(),
        "Atomic save failed (rename 5 refused). Direct save failed: target is locked"
    );
    assert_eq!(d.renames, 5);
    assert_eq!(d.temp, None);
    let n = d.actions.len();
    assert_eq!(d.actions[n - 2], SaveAction::RemoveTemp);
}

#[test]
fn directory_failure_does_not_end_the_save() {
    let (mut machine, first) = SaveMachine::start();
    assert_eq!(first, SaveAction::EnsureDir);
    assert_eq!(machine.phase(), SavePhase::EnsuringDir);
    assert_eq!(machine.advance(failed("no documents", false)), SaveAction::WriteTemp);
    assert_eq!(machine.phase(), SavePhase::WritingTemp);
}

#[test]
fn attempts_count_the_renames_asked_for() {
    let (mut machine, _) = SaveMachine::start();
    assert_eq!(machine.attempts(), 0);
    machine.advance(Outcome::Done);
    assert_eq!(machine.advance(Outcome::Done), SaveAction::Rename);
    assert_eq!(machine.attempts(), 1);
    assert_eq!(machine.phase(), SavePhase::Renaming);
    assert_eq!(machine.advance(failed("busy", false)), SaveAction::Sleep { millis: 100 });
    assert_eq!(machine.phase(), SavePhase::Waiting);
    assert_eq!(machine.advance(Outcome::Done), SaveAction::Rename);
    assert_eq!(machine.attempts(), 2);
}

#[test]
fn finished_save_repeats_its_report() {
    let (mut machine, _) = SaveMachine::start();
    machine.advance(Outcome::Done);
    machine.advance(Outcome::Done);
    assert_eq!(machine.advance(Outcome::Done), SaveAction::Succeed);
    assert!(machine.is_finished());
    assert_eq!(machine.advance(Outcome::Done), SaveAction::Succeed);
    assert_eq!(machine.advance(failed("late", true)), SaveAction::Succeed);

    let (mut failing, _) = SaveMachine::start();
    failing.advance(Outcome::Done);
    failing.advance(failed("a", false));
    assert_eq!(failing.advance(failed("b", false)), SaveAction::RemoveTemp);
    let report = failing.advance(failed("c", false));
    assert!(matches!(report, SaveAction::Fail(_)));
    assert!(failing.is_finished());
    assert_eq!(failing.advance(Outcome::Done), report);
}

#[test]
fn load_of_missing_file_is_not_found() {
    assert_eq!(load_precheck(false), Err(LoadError::NotFound));
    assert_eq!(LoadError::NotFound.message(), "File not found");
    assert_eq!(load_precheck(true), Ok(()));
}

#[test]
fn load_returns_content_or_read_failure() {
    assert_eq!(load_result(Ok("note".to_string())), Ok("note".to_string()));
    let error = load_result(Err("permission denied".to_string())).unwrap_err();
    assert_eq!(error, LoadError::ReadFailed("permission denied".to_string()));
    assert_eq!(error.message(), "permission denied");
}

#[test]
fn temp_name_appends_suffix() {
    assert_eq!(temp_name("todo.txt"), "todo.txt.tmp");
    assert_eq!(temp_name(""), ".tmp");
    assert_eq!(notes_dir(), "SoNotes");
}

#[test]
fn filenames_with_traversal_are_unsafe() {
    assert!(filename_is_safe("todo.txt"));
    assert!(filename_is_safe("a..b"));
    assert!(filename_is_safe("..."));
    assert!(filename_is_safe("."));
    assert!(filename_is_safe("笔记.txt"));
    assert!(!filename_is_safe(".."));
    assert!(!filename_is_safe("../secret"));
    assert!(!filename_is_safe("a/b"));
    assert!(!filename_is_safe("a\\b"));
    assert!(!filename_is_safe("/etc/passwd"));
}
