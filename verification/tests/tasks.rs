use bamboo_storage::error::{ErrorKind, StorageError};
use bamboo_storage::locked_store::{LockedSessionStore, RebaseStep, RebasingSave};
use bamboo_storage::probe::{MainProbe, Probe, SessionFile};
use bamboo_storage::recovery_target::{
    load_runtime_task_recovery_control_plane, load_runtime_task_recovery_target,
    read_runtime_task_recovery_main_at, restore_runtime_task_undo,
    runtime_task_recovery_real_directory, runtime_task_recovery_real_file,
    validate_runtime_task_recovery_identity, validate_runtime_task_recovery_write_target,
    Candidate, RootScan, ScanItem, WriteTarget,
};
use bamboo_storage::root_context::RootContext;
use bamboo_storage::root_fence::RootFence;
use bamboo_storage::session::{Session, SessionKind, SessionRuntimeMetadata};
use bamboo_storage::task_journal::{
    apply_undo, check_pair_request, check_runtime_task_journal, ordinary_task_write_would_regress,
    reject_regressing_runtime_task, runtime_task_journal_paths, runtime_task_non_task_snapshot,
    runtime_task_owned_snapshot_matches, save_runtime_task_control_plane_if_matches,
    save_runtime_task_pair_transaction, validate_runtime_task_journal, DirEntry, PairCommit,
    RuntimeTaskJournalMarkerState, RuntimeTaskTransactionJournal, TaskControlPlaneUndo,
};
use bamboo_storage::task_protocol::{
    JournalRecovery, PairAction, PairPhase, PairSide, PairTransaction, RecoveryPhase,
};
use bamboo_storage::task_recovery::{
    ensure_no_runtime_task_journal_locked, runtime_task_recovery_error, RecoverySweep, SweepStep,
};
use bamboo_storage::time::Timestamp;

const UUID: &str = "67e55044-10b1-426f-9247-bb680e5fe0c8";
const SUPERVISOR: &str = "supervisor-default";

fn at(secs: i64) -> Timestamp {
    Timestamp { secs, nanos: 0 }
}

fn root(id: &str) -> Session {
    Session::new_root(id, "model", "Title", at(100))
}

fn with_tasks(id: &str, list: &str, version: &str) -> Session {
    let mut s = root(id);
    s.set_tasks(Some(list.to_string()), version.to_string());
    s
}

fn child(id: &str, root_id: &str) -> Session {
    let mut s = root(id);
    s.kind = SessionKind::Child;
    s.root_session_id = root_id.to_string();
    s.parent_session_id = Some(root_id.to_string());
    s.spawn_depth = 1;
    s
}

fn failure(message: &str) -> StorageError {
    StorageError::new(ErrorKind::System(28), message.to_string())
}

fn undo(id: &str, version: &str) -> TaskControlPlaneUndo {
    TaskControlPlaneUndo {
        session_id: id.to_string(),
        task_list: Some("old".to_string()),
        task_list_version: version.to_string(),
    }
}

fn journal() -> RuntimeTaskTransactionJournal {
    RuntimeTaskTransactionJournal {
        version: 1,
        transaction_id: UUID.to_string(),
        first: undo("a", "1"),
        second: undo("b", "1"),
    }
}

fn entry(name: &str) -> DirEntry {
    DirEntry {
        name: name.to_string(),
        is_file: true,
    }
}

fn fence(runtime: SessionFile) -> RootFence {
    RootFence {
        revocation: Ok(None),
        live: Ok(true),
        context: RootContext {
            path: "/s".to_string(),
            directory: Probe::Directory,
            main_file: Probe::File,
            runtime_file: Probe::File,
            layout: Ok(vec![]),
            runtime,
        },
    }
}

fn fence_of(durable: &Session) -> RootFence {
    fence(SessionFile::Parsed(durable.duplicate()))
}

fn commit() -> PairCommit {
    let a = with_tasks("a", "old", "1");
    let b = with_tasks("b", "old", "1");
    let mut a2 = a.duplicate();
    a2.set_tasks(Some("new".to_string()), "2".to_string());
    let mut b2 = b.duplicate();
    b2.set_tasks(Some("new".to_string()), "2".to_string());
    save_runtime_task_pair_transaction(
        &a,
        &a2,
        &b,
        &b2,
        Ok(Some(a.duplicate())),
        Ok(Some(b.duplicate())),
        &fence_of(&a),
        &fence_of(&b),
        UUID.to_string(),
    )
    .ok()
    .unwrap()
    .unwrap()
}

#[test]
fn marker_states_follow_the_extension() {
    assert_eq!(
        RuntimeTaskJournalMarkerState::from_path("d/x.json"),
        Some(RuntimeTaskJournalMarkerState::Prepared)
    );
    assert_eq!(
        RuntimeTaskJournalMarkerState::from_path("x.committing"),
        Some(RuntimeTaskJournalMarkerState::Committing)
    );
    assert_eq!(
        RuntimeTaskJournalMarkerState::from_path("x.committed"),
        Some(RuntimeTaskJournalMarkerState::Committed)
    );
    assert_eq!(RuntimeTaskJournalMarkerState::from_path("x.tmp"), None);
    assert_eq!(RuntimeTaskJournalMarkerState::from_path("json"), None);
}

#[test]
fn journals_are_listed_in_order() {
    let mut dir = entry("d.json");
    dir.is_file = false;
    let entries = vec![entry("z.committed"), entry("b.tmp"), dir, entry("a.json")];
    assert_eq!(runtime_task_journal_paths(&entries), vec!["a.json", "z.committed"]);
}

#[test]
fn journals_are_checked_against_their_name() {
    let path = format!("dir/{}.json", UUID);
    assert!(validate_runtime_task_journal(&path, &journal()).is_ok());
    let e = validate_runtime_task_journal("dir/67e55044-10b1-426f-9247-bb680e5fe0c9.json", &journal()).unwrap_err();
    assert_eq!(e.kind, ErrorKind::InvalidData);
    assert_eq!(
        e.message,
        "runtime Task transaction journal id does not match its filename"
    );
    let mut j = journal();
    j.version = 2;
    let e = validate_runtime_task_journal(&path, &j).unwrap_err();
    assert_eq!(e.message, "unsupported runtime Task transaction journal version 2");
    let mut j = journal();
    j.transaction_id = "no-uuid".to_string();
    let e = validate_runtime_task_journal("dir/no-uuid.json", &j).unwrap_err();
    assert!(e.message.starts_with("invalid runtime Task transaction journal UUID: "));
    let mut j = journal();
    j.second = undo("a", "1");
    let e = validate_runtime_task_journal(&path, &j).unwrap_err();
    assert_eq!(
        e.message,
        "runtime Task transaction journal pair is not lexically ordered"
    );
    let mut j = journal();
    j.first = undo("../a", "1");
    assert!(validate_runtime_task_journal(&path, &j).is_err());
    let e = check_runtime_task_journal(&path, &journal(), &Err("short".to_string())).unwrap_err();
    assert_eq!(e.message, "invalid runtime Task transaction journal UUID: short");
}

#[test]
fn a_written_journal_is_accepted_again() {
    let c = commit();
    let path = format!("{}.json", UUID);
    assert!(validate_runtime_task_journal(&path, &c.journal).is_ok());
    assert_eq!(c.journal.first.session_id, "a");
    assert_eq!(c.journal.first.task_list, Some("old".to_string()));
    assert_eq!(c.journal.first.task_list_version, "1");
}

#[test]
fn a_pair_commit_can_be_undone() {
    let c = commit();
    assert_eq!(c.first.task_list, Some("new".to_string()));
    assert_eq!(c.first.task_list_version_meta(), Some("2".to_string()));
    let mut back = c.first.duplicate();
    apply_undo(&mut back, &c.journal.first);
    assert!(back.same(&with_tasks("a", "old", "1")));
    let mut back = c.second.duplicate();
    apply_undo(&mut back, &c.journal.second);
    assert!(back.same(&with_tasks("b", "old", "1")));
}

#[test]
fn pair_requests_are_narrow() {
    let a = with_tasks("a", "old", "1");
    let b = with_tasks("b", "old", "1");
    let a2 = with_tasks("a", "new", "2");
    let b2 = with_tasks("b", "new", "2");
    assert!(check_pair_request(&a, &a2, &b, &b2).is_ok());
    let e = check_pair_request(&b, &b2, &a, &a2).unwrap_err();
    assert_eq!(e.kind, ErrorKind::InvalidInput);
    assert_eq!(
        e.message,
        "paired Task snapshots must preserve ids and be lexically ordered"
    );
    let e = check_pair_request(&a, &a2, &b, &with_tasks("b", "other", "2")).unwrap_err();
    assert_eq!(
        e.message,
        "paired Task updates must publish identical Task lists/generations"
    );
    let mut wide = a2.duplicate();
    wide.title = "x".to_string();
    let e = check_pair_request(&a, &wide, &b, &b2).unwrap_err();
    assert_eq!(
        e.message,
        "first paired Task update modifies fields outside Task list/generation"
    );
    let mut wide = b2.duplicate();
    wide.pinned = true;
    let e = check_pair_request(&a, &a2, &b, &wide).unwrap_err();
    assert_eq!(
        e.message,
        "second paired Task update modifies fields outside Task list/generation"
    );
}

#[test]
fn a_pair_whose_tasks_moved_is_not_committed() {
    let a = with_tasks("a", "old", "1");
    let b = with_tasks("b", "old", "1");
    let a2 = with_tasks("a", "new", "2");
    let b2 = with_tasks("b", "new", "2");
    let moved = with_tasks("a", "other", "5");
    let r = save_runtime_task_pair_transaction(
        &a,
        &a2,
        &b,
        &b2,
        Ok(Some(moved)),
        Ok(Some(b.duplicate())),
        &fence_of(&a),
        &fence_of(&b),
        UUID.to_string(),
    );
    assert!(r.ok().unwrap().is_none());
    let r = save_runtime_task_pair_transaction(
        &a,
        &a2,
        &b,
        &b2,
        Ok(None),
        Ok(Some(b.duplicate())),
        &fence_of(&a),
        &fence_of(&b),
        UUID.to_string(),
    );
    assert!(r.ok().unwrap().is_none());
}

#[test]
fn a_single_commit_keeps_fields_that_moved_since() {
    let original = with_tasks("a", "old", "1");
    let updated = with_tasks("a", "new", "2");
    let mut current = original.duplicate();
    current.title = "renamed".to_string();
    let got = save_runtime_task_control_plane_if_matches(
        &original,
        &updated,
        Ok(Some(current.duplicate())),
        &fence_of(&current),
    )
    .ok()
    .unwrap()
    .unwrap();
    assert_eq!(got.title, "renamed");
    assert_eq!(got.task_list, Some("new".to_string()));
    let stale = with_tasks("a", "old", "9");
    let got = save_runtime_task_control_plane_if_matches(
        &original,
        &updated,
        Ok(Some(stale)),
        &fence_of(&current),
    );
    assert!(got.ok().unwrap().is_none());
    let refused = |asked: &Session| {
        save_runtime_task_control_plane_if_matches(&original, asked, Ok(None), &fence_of(&current))
            .err()
            .unwrap()
    };
    let e = refused(&with_tasks("b", "new", "2"));
    assert_eq!(e.message, "single Task snapshots must preserve the session id");
    let e = refused(&root("a"));
    assert_eq!(e.message, "single Task update requires a list and generation");
    let mut wide = updated.duplicate();
    wide.pinned = true;
    let e = refused(&wide);
    assert_eq!(
        e.message,
        "single Task update modifies fields outside Task list/generation"
    );
}

#[test]
fn task_commits_stay_behind_the_fence() {
    let a = with_tasks("a", "old", "1");
    let b = with_tasks("b", "old", "1");
    let a2 = with_tasks("a", "new", "2");
    let b2 = with_tasks("b", "new", "2");
    let current = |s: &Session| Ok(Some(s.duplicate()));
    let corrupt = || fence(SessionFile::Corrupt("bad byte".to_string()));
    let mut missing = fence(SessionFile::Missing);
    missing.context.runtime_file = Probe::Missing;
    for closed in [corrupt(), missing] {
        let e = save_runtime_task_control_plane_if_matches(&a, &a2, current(&a), &closed)
            .err()
            .unwrap();
        assert!(e.authority_conflict);
        let id = UUID.to_string();
        let r = save_runtime_task_pair_transaction(
            &a, &a2, &b, &b2, current(&a), current(&b), &closed, &fence_of(&b), id,
        );
        assert!(r.is_err());
        let id = UUID.to_string();
        let r = save_runtime_task_pair_transaction(
            &a, &a2, &b, &b2, current(&a), current(&b), &fence_of(&a), &closed, id,
        );
        assert!(r.is_err());
    }
    let mut revoked = fence_of(&a);
    revoked.live = Ok(false);
    revoked.revocation = Ok(Some(a.created_at));
    let r = save_runtime_task_control_plane_if_matches(&a, &a2, current(&a), &revoked);
    assert!(r.err().unwrap().authority_conflict);
}

#[test]
fn task_snapshots_compare_tasks_alone() {
    let a = with_tasks("a", "l", "1");
    let mut b = a.duplicate();
    b.title = "other".to_string();
    assert!(runtime_task_owned_snapshot_matches(&a, &b));
    assert!(!runtime_task_owned_snapshot_matches(&a, &with_tasks("a", "l", "2")));
    let bare = runtime_task_non_task_snapshot(&a);
    assert_eq!(bare.task_list, None);
    assert_eq!(bare.task_list_version_meta(), None);
}

#[test]
fn saves_never_take_tasks_back() {
    let durable = with_tasks("a", "l", "7");
    assert!(ordinary_task_write_would_regress(&with_tasks("a", "l", "6"), &durable));
    assert!(ordinary_task_write_would_regress(&with_tasks("a", "m", "7"), &durable));
    assert!(!ordinary_task_write_would_regress(&with_tasks("a", "l", "7"), &durable));
    assert!(!ordinary_task_write_would_regress(&with_tasks("a", "m", "8"), &durable));
    assert!(ordinary_task_write_would_regress(&root("a"), &durable));
    assert!(!ordinary_task_write_would_regress(&durable, &root("a")));
    let e = reject_regressing_runtime_task(&root("a"), &Ok(Some(durable.duplicate()))).unwrap_err();
    assert_eq!(e.kind, ErrorKind::WouldBlock);
    assert_eq!(e.message, "Task control-plane changed while saving session a");
    assert!(reject_regressing_runtime_task(&durable, &Ok(None)).is_ok());
}

// A disk on which the actions of a paired commit are carried out.
struct Disk {
    first: Session,
    second: Session,
    marker: Option<RuntimeTaskJournalMarkerState>,
}

impl Disk {
    fn new() -> Disk {
        Disk {
            first: with_tasks("a", "old", "1"),
            second: with_tasks("b", "old", "1"),
            marker: None,
        }
    }

    fn perform(&mut self, action: PairAction, c: &PairCommit) {
        match action {
            PairAction::WriteJournal => {
                self.marker = Some(RuntimeTaskJournalMarkerState::Prepared)
            }
            PairAction::WriteSidecar(PairSide::First) => self.first = c.first.duplicate(),
            PairAction::WriteSidecar(PairSide::Second) => self.second = c.second.duplicate(),
            PairAction::RenameMarker(from, to) => {
                assert_eq!(self.marker, Some(from));
                self.marker = Some(to);
            }
            PairAction::SyncMarkers => {}
            PairAction::DeactivateMarker(s) => {
                assert_eq!(self.marker, Some(s));
                self.marker = None;
            }
            PairAction::RestoreUndo(PairSide::First) => {
                apply_undo(&mut self.first, &c.journal.first)
            }
            PairAction::RestoreUndo(PairSide::Second) => {
                apply_undo(&mut self.second, &c.journal.second)
            }
            PairAction::DeactivateIfPresent(s) => {
                if self.marker == Some(s) {
                    self.marker = None;
                }
            }
            PairAction::Finish => {}
        }
    }

    fn generations(&self) -> (String, String) {
        (
            self.first.task_list_version_meta().unwrap(),
            self.second.task_list_version_meta().unwrap(),
        )
    }

    fn recover(&mut self, c: &PairCommit) {
        if let Some(marker) = self.marker {
            let mut r = JournalRecovery::recover_runtime_task_journal(Some(marker));
            while r.phase != RecoveryPhase::Finished {
                self.perform(r.action(marker), c);
                r = r.step(Ok(()), "a", "b");
            }
            assert!(r.failure.is_none());
        }
    }
}

fn run_to_end(disk: &mut Disk, fail_at: Option<usize>) -> PairTransaction {
    let c = commit();
    let mut t = PairTransaction::begin(false);
    let mut n = 0;
    while t.phase != PairPhase::Finished {
        if fail_at == Some(n) {
            t = t.step(Err(failure("disk full")), "a", "b");
        } else {
            disk.perform(t.action(), &c);
            t = t.step(Ok(()), "a", "b");
        }
        n += 1;
    }
    t
}

#[test]
fn a_pair_commit_publishes_both_sides() {
    let mut disk = Disk::new();
    let t = run_to_end(&mut disk, None);
    assert!(t.failure.is_none());
    assert!(!t.recovery_required);
    assert_eq!(disk.generations(), ("2".to_string(), "2".to_string()));
    assert_eq!(disk.marker, None);
}

#[test]
fn a_failed_pair_commit_is_rolled_back() {
    for n in 1..6 {
        let mut disk = Disk::new();
        let t = run_to_end(&mut disk, Some(n));
        let e = t.failure.unwrap();
        assert_eq!(
            e.message,
            "runtime Task transaction failed and was rolled back: disk full"
        );
        assert_eq!(e.kind, ErrorKind::System(28));
        assert!(!t.recovery_required);
        assert_eq!(disk.generations(), ("1".to_string(), "1".to_string()));
        assert_eq!(disk.marker, None);
    }
}

#[test]
fn a_commit_whose_marker_stays_is_still_durable() {
    for n in 6..8 {
        let mut disk = Disk::new();
        let t = run_to_end(&mut disk, Some(n));
        assert!(t.recovery_required);
        assert_eq!(
            t.failure.unwrap().message,
            "runtime Task transaction committed durably but marker cleanup requires recovery: disk full"
        );
        disk.recover(&commit());
        assert_eq!(disk.generations(), ("2".to_string(), "2".to_string()));
        assert_eq!(disk.marker, None);
    }
}

#[test]
fn a_crash_anywhere_recovers_to_one_side() {
    let c = commit();
    for stop in 0..9 {
        let mut disk = Disk::new();
        let mut t = PairTransaction::begin(false);
        for _ in 0..stop {
            disk.perform(t.action(), &c);
            t = t.step(Ok(()), "a", "b");
        }
        disk.recover(&c);
        let (x, y) = disk.generations();
        assert_eq!(x, y);
        assert_eq!(disk.marker, None);
        disk.recover(&c);
        assert_eq!(disk.generations(), (x, y));
    }
}

#[test]
fn a_rollback_that_fails_asks_for_recovery() {
    let mut t = PairTransaction::begin(false);
    t = t.step(Ok(()), "a", "b");
    t = t.step(Err(failure("one")), "a", "b");
    assert_eq!(t.action(), PairAction::RestoreUndo(PairSide::First));
    t = t.step(Err(failure("two")), "a", "b");
    t = t.step(Err(failure("three")), "a", "b");
    assert!(t.recovery_required);
    assert_eq!(
        t.failure.unwrap().message,
        "runtime Task transaction failed (one); runtime Task transaction rollback failed for a: two, b: three; recovery required"
    );
    let t = PairTransaction::begin(true).step(Err(failure("one")), "a", "b");
    assert!(t.recovery_required);
    assert_eq!(t.failure.unwrap().message, "one");
}

#[test]
fn an_unknown_marker_cannot_be_recovered() {
    let r = JournalRecovery::recover_runtime_task_journal(None);
    assert_eq!(r.phase, RecoveryPhase::Finished);
    assert_eq!(
        r.failure.unwrap().message,
        "invalid runtime Task journal marker extension"
    );
    let r = JournalRecovery::recover_runtime_task_journal(Some(
        RuntimeTaskJournalMarkerState::Prepared,
    ))
    .step(Err(failure("x")), "a", "b")
    .step(Ok(()), "a", "b");
    assert_eq!(
        r.failure.unwrap().message,
        "runtime Task transaction rollback failed for a: x"
    );
}

#[test]
fn access_waits_for_recovery() {
    let (required, answer) = ensure_no_runtime_task_journal_locked(Ok(vec![entry("x.tmp")]));
    assert!(!required && answer.is_ok());
    let (required, answer) = ensure_no_runtime_task_journal_locked(Ok(vec![entry("x.json")]));
    assert!(required);
    assert_eq!(answer.unwrap_err().message, runtime_task_recovery_error().message);
    let missing = StorageError::new(ErrorKind::NotFound, "no".to_string());
    let (required, answer) = ensure_no_runtime_task_journal_locked(Err(missing));
    assert!(!required && answer.is_ok());
    let (required, answer) = ensure_no_runtime_task_journal_locked(Err(failure("io")));
    assert!(required && answer.is_err());
}

#[test]
fn a_sweep_recovers_every_journal() {
    let listing = Ok(vec![entry("b.committed"), entry("a.json")]);
    let mut s = RecoverySweep::recover_all_runtime_task_transactions_locked(listing, true);
    let mut seen = vec![];
    while s.step != SweepStep::Finished {
        if s.step == SweepStep::Read {
            s = s.on_read(Ok(&journal()));
        } else {
            seen.push(s.names[s.next].clone());
            s = s.on_recovered(Ok(()));
        }
    }
    assert_eq!(seen, vec!["a.json", "b.committed"]);
    assert!(!s.recovery_required);
    assert!(s.failure.is_none());
    let s = RecoverySweep::recover_all_runtime_task_transactions_locked(
        Ok(vec![entry("a.json")]),
        false,
    )
    .on_read(Err(failure("unreadable")));
    assert!(s.recovery_required);
    assert_eq!(s.failure.unwrap().message, "unreadable");
}

#[test]
fn a_pair_waits_for_the_unfinished_commits_of_others() {
    let s = RecoverySweep::recover_runtime_task_transaction_for_pair_locked(
        "x",
        "y",
        Ok(vec![entry("a.json")]),
        false,
    )
    .on_read(Ok(&journal()));
    assert!(s.recovery_required);
    assert_eq!(
        s.failure.unwrap().message,
        "pending runtime Task transaction for a/b must be recovered before accessing x/y"
    );
    let s = RecoverySweep::recover_runtime_task_transaction_for_pair_locked(
        "x",
        "y",
        Ok(vec![entry("a.committed")]),
        false,
    )
    .on_read(Ok(&journal()));
    assert_eq!(s.step, SweepStep::Recover);
    let s = RecoverySweep::recover_runtime_task_transaction_for_pair_locked(
        "y",
        "x",
        Ok(vec![]),
        false,
    );
    assert_eq!(
        s.failure.unwrap().message,
        "runtime Task recovery pair must be lexically ordered"
    );
}

fn found(s: Session) -> MainProbe {
    MainProbe {
        directory: Probe::Directory,
        file: Probe::File,
        content: SessionFile::Parsed(s),
    }
}

fn nothing() -> MainProbe {
    MainProbe {
        directory: Probe::Missing,
        file: Probe::Missing,
        content: SessionFile::Missing,
    }
}

fn scan(name: &str, children: Probe, at_child: MainProbe, at_root: MainProbe) -> ScanItem {
    ScanItem::Entry(RootScan {
        name: Some(name.to_string()),
        is_directory: true,
        children,
        child: at_child,
        root: at_root,
    })
}

#[test]
fn recovery_finds_a_session_at_its_place() {
    let t = load_runtime_task_recovery_target("/s", "a", &Probe::Directory, found(root("a")), Some(vec![]))
        .ok()
        .unwrap()
        .unwrap();
    assert_eq!(t.directory, "/s/a");
    let items = Some(vec![scan("r", Probe::Directory, found(child("c", "r")), found(root("r")))]);
    let t = load_runtime_task_recovery_target("/s", "c", &Probe::Directory, nothing(), items)
        .ok()
        .unwrap()
        .unwrap();
    assert_eq!(t.directory, "/s/r/children/c");
    let items = Some(vec![
        scan("r", Probe::Directory, found(child("c", "r")), found(root("r"))),
        scan("q", Probe::Directory, found(child("c", "q")), found(root("q"))),
    ]);
    let e = load_runtime_task_recovery_target("/s", "c", &Probe::Directory, nothing(), items)
        .err()
        .unwrap();
    assert!(e.message.contains(" is ambiguous across 2 authoritative directories"));
    let items = Some(vec![scan("r", Probe::Directory, found(child("c", "r")), nothing())]);
    let e = load_runtime_task_recovery_target("/s", "c", &Probe::Directory, nothing(), items)
        .err()
        .unwrap();
    assert_eq!(
        e.message,
        "runtime Task recovery child c has no authoritative root r"
    );
    let none = load_runtime_task_recovery_target("/s", "c", &Probe::Directory, nothing(), Some(vec![]));
    assert!(none.ok().unwrap().is_none());
}

#[test]
fn recovery_trusts_only_real_files() {
    assert!(runtime_task_recovery_real_directory("/d", &Probe::Directory).unwrap());
    assert!(!runtime_task_recovery_real_directory("/d", &Probe::Missing).unwrap());
    assert_eq!(
        runtime_task_recovery_real_directory("/d", &Probe::File).unwrap_err().message,
        "runtime Task recovery candidate is not a real directory: /d"
    );
    assert_eq!(
        runtime_task_recovery_real_file("/f", &Probe::Other).unwrap_err().message,
        "runtime Task recovery candidate is not a real file: /f"
    );
    assert!(runtime_task_recovery_real_file("/f", &Probe::File).unwrap());
    assert!(runtime_task_recovery_real_file("/f", &Probe::Failed(failure("x"))).is_err());
    assert!(validate_runtime_task_recovery_identity(&root("a"), "a", SessionKind::Root, "a").is_ok());
    let e = validate_runtime_task_recovery_identity(&root("a"), "b", SessionKind::Root, "b")
        .unwrap_err();
    assert!(e.message.starts_with("runtime Task recovery identity mismatch for b: found id=a"));
    let bad = MainProbe {
        directory: Probe::Directory,
        file: Probe::File,
        content: SessionFile::Corrupt("eof".to_string()),
    };
    let e = read_runtime_task_recovery_main_at("/s/a", bad, "a", SessionKind::Root, "a")
        .err()
        .unwrap();
    assert_eq!(
        e.message,
        "invalid authoritative session.json for runtime Task recovery at /s/a/session.json: eof"
    );
}

#[test]
fn a_restore_writes_the_undo_into_the_control_plane() {
    let mut side = with_tasks("a", "new", "2");
    side.title = "kept".to_string();
    let target = Ok(Some(Candidate {
        directory: "/s/a".to_string(),
        session: root("a"),
    }));
    let plane = load_runtime_task_recovery_control_plane(
        target,
        &Probe::File,
        SessionFile::Parsed(side),
        "a",
        SUPERVISOR,
    );
    let restored = restore_runtime_task_undo(&undo("a", "1"), plane).ok().unwrap();
    assert_eq!(restored.directory, "/s/a");
    assert_eq!(restored.session.title, "kept");
    assert_eq!(restored.session.task_list, Some("old".to_string()));
    assert_eq!(restored.session.task_list_version_meta(), Some("1".to_string()));
    let e = restore_runtime_task_undo(&undo("a", "1"), Ok(None)).err().unwrap();
    assert_eq!(e.message, "cannot recover missing session a");
}

#[test]
fn a_restore_is_written_only_where_the_session_still_is() {
    let target = WriteTarget {
        sessions_directory: Probe::Directory,
        root: nothing(),
        children: Probe::Missing,
        main: found(root("a")),
        runtime_file: Probe::File,
    };
    assert!(validate_runtime_task_recovery_write_target("/s", "/s/a", &root("a"), target).is_ok());
    let target = WriteTarget {
        sessions_directory: Probe::Directory,
        root: nothing(),
        children: Probe::Missing,
        main: nothing(),
        runtime_file: Probe::Missing,
    };
    let e = validate_runtime_task_recovery_write_target("/s", "/s/a", &root("a"), target).unwrap_err();
    assert_eq!(e.message, "runtime Task recovery target disappeared for a");
    let target = WriteTarget {
        sessions_directory: Probe::Missing,
        root: nothing(),
        children: Probe::Missing,
        main: nothing(),
        runtime_file: Probe::Missing,
    };
    let e = validate_runtime_task_recovery_write_target("/s", "/s/a", &root("a"), target).unwrap_err();
    assert_eq!(e.message, "runtime Task recovery sessions directory is missing");
    let target = WriteTarget {
        sessions_directory: Probe::Directory,
        root: nothing(),
        children: Probe::Missing,
        main: found(root("a")),
        runtime_file: Probe::File,
    };
    let e = validate_runtime_task_recovery_write_target("/s", "/s/b", &root("a"), target).unwrap_err();
    assert_eq!(e.message, "runtime Task recovery path mismatch for a: /s/b");
}

#[test]
fn a_rebased_save_takes_durable_tasks_alone() {
    let mut mine = with_tasks("a", "mine", "1");
    mine.title = "mine".to_string();
    let mut durable = with_tasks("a", "theirs", "4");
    durable.title = "theirs".to_string();
    let conflict = reject_regressing_runtime_task(&mine, &Ok(Some(durable.duplicate()))).unwrap_err();
    let mut r = RebasingSave::begin(mine);
    r = r.on_saved(Err(conflict.clone()));
    assert_eq!(r.step, RebaseStep::Reload);
    r = r.on_reloaded(Ok(Some(durable.duplicate())));
    assert_eq!(r.step, RebaseStep::Save);
    assert_eq!(r.attempt, 1);
    assert_eq!(r.session.title, "mine");
    assert_eq!(r.session.task_list, Some("theirs".to_string()));
    assert!(reject_regressing_runtime_task(&r.session, &Ok(Some(durable.duplicate()))).is_ok());
    let done = r.on_saved(Ok(()));
    assert_eq!(done.step, RebaseStep::Finished);
    assert!(done.failure.is_none());
    let mut r = RebasingSave::begin(with_tasks("a", "mine", "1"));
    let mut saves = 0;
    while r.step != RebaseStep::Finished {
        saves += 1;
        r = r.on_saved(Err(conflict.clone()));
        if r.step == RebaseStep::Reload {
            r = r.on_reloaded(Ok(Some(durable.duplicate())));
        }
    }
    assert_eq!(saves, 4);
    assert_eq!(r.failure.unwrap().message, conflict.message);
    let r = RebasingSave::begin(root("a")).on_saved(Err(failure("io")));
    assert_eq!(r.step, RebaseStep::Finished);
}

#[test]
fn patches_are_answered_by_what_is_durable() {
    let durable = with_tasks("a", "l1", "3");
    let p = LockedSessionStore::update_task_list_control_plane_and_publish(
        "a",
        Ok(Some(durable.duplicate())),
        "l2",
        "4",
    )
    .ok()
    .unwrap()
    .unwrap();
    assert!(p.original.same(&durable));
    assert!(p.updated.same(&with_tasks("a", "l2", "4")));
    let e = LockedSessionStore::update_task_list_control_plane_and_publish(
        "a",
        Ok(Some(durable.duplicate())),
        "l2",
        "3",
    )
    .err()
    .unwrap();
    assert_eq!(e.kind, ErrorKind::WouldBlock);
    assert_eq!(e.message, "Task control-plane changed while patching session a");
    let end = LockedSessionStore::task_patch_answer("a", Ok(Some(p)), Ok(true));
    assert!(end.publish.unwrap().same(&with_tasks("a", "l2", "4")));
    assert!(end.answer.unwrap());
    let p = LockedSessionStore::update_task_list_control_plane_and_publish(
        "a",
        Ok(Some(durable.duplicate())),
        "l2",
        "4",
    );
    let end = LockedSessionStore::task_patch_answer("a", p, Ok(false));
    assert!(end.publish.is_none());
    assert_eq!(
        end.answer.unwrap_err().message,
        "Task control-plane changed while patching session a"
    );
    let end = LockedSessionStore::task_patch_answer("a", Ok(None), Ok(false));
    assert!(end.publish.is_none());
    assert!(!end.answer.unwrap());
    let end = LockedSessionStore::task_patch_answer("a", Err(failure("load")), Ok(false));
    assert_eq!(end.answer.unwrap_err().message, "load");
    let some = LockedSessionStore::update_task_list_control_plane_if_version_and_publish(
        Ok(Some(durable.duplicate())),
        "3",
        "l1",
        "l2",
        "4",
    );
    assert!(some.as_ref().ok().unwrap().is_some());
    let end = LockedSessionStore::conditional_patch_answer(some, Ok(true));
    assert!(end.publish.unwrap().same(&with_tasks("a", "l2", "4")));
    let some = LockedSessionStore::update_task_list_control_plane_if_version_and_publish(
        Ok(Some(durable.duplicate())),
        "3",
        "l1",
        "l2",
        "4",
    );
    let end = LockedSessionStore::conditional_patch_answer(some, Ok(false));
    assert!(end.publish.is_none());
    assert!(!end.answer.unwrap());
    let none = LockedSessionStore::update_task_list_control_plane_if_version_and_publish(
        Ok(Some(durable)),
        "2",
        "l1",
        "l2",
        "4",
    );
    assert!(none.ok().unwrap().is_none());
}

#[test]
fn paired_patches_lock_in_one_order() {
    assert!(LockedSessionStore::local_lock_first("a", "b"));
    assert!(!LockedSessionStore::local_lock_first("b", "a"));
    let p = LockedSessionStore::update_task_list_control_planes_if_version_and_publish(
        "b",
        "a",
        Ok(Some(with_tasks("b", "l", "1"))),
        Ok(Some(with_tasks("a", "l", "1"))),
        "1",
        "l",
        "m",
        "2",
    )
    .ok()
    .unwrap()
    .unwrap();
    assert!(!p.local_first);
    assert!(p.local.updated.same(&with_tasks("b", "m", "2")));
    assert!(p.shared.updated.same(&with_tasks("a", "m", "2")));
    let (first, second) = p.in_order();
    assert_eq!(first.original.id, "a");
    assert!(check_pair_request(
        &first.original,
        &first.updated,
        &second.original,
        &second.updated
    )
    .is_ok());
    let end = LockedSessionStore::paired_patch_answer(Ok(Some(p)), Ok(true));
    let (local, shared) = end.publish.unwrap();
    assert!(local.same(&with_tasks("b", "m", "2")));
    assert!(shared.same(&with_tasks("a", "m", "2")));
    assert!(end.answer.unwrap());
}

#[test]
fn a_pair_that_was_not_committed_is_not_published() {
    let plan = |list: &str| {
        LockedSessionStore::update_task_list_control_planes_if_version_and_publish(
            "b",
            "a",
            Ok(Some(with_tasks("b", "l", "1"))),
            Ok(Some(with_tasks("a", "l", "1"))),
            "1",
            list,
            "m",
            "2",
        )
    };
    let stale = plan("other");
    assert!(stale.as_ref().ok().unwrap().is_none());
    let end = LockedSessionStore::paired_patch_answer(stale, Ok(true));
    assert!(end.publish.is_none());
    assert!(!end.answer.unwrap());
    let end = LockedSessionStore::paired_patch_answer(plan("l"), Ok(false));
    assert!(end.publish.is_none());
    assert!(!end.answer.unwrap());
    let end = LockedSessionStore::paired_patch_answer(plan("l"), Err(failure("io")));
    assert!(end.publish.is_none());
    assert_eq!(end.answer.unwrap_err().message, "io");
    let missing = LockedSessionStore::update_task_list_control_planes_if_version_and_publish(
        "b",
        "a",
        Ok(Some(with_tasks("b", "l", "1"))),
        Ok(None),
        "1",
        "l",
        "m",
        "2",
    );
    let end = LockedSessionStore::paired_patch_answer(missing, Ok(false));
    assert!(!end.answer.unwrap());
}

#[test]
fn generations_read_back_as_they_were_set() {
    let mut s = root("a");
    s.set_task_list_version_meta("12".to_string());
    assert_eq!(s.task_list_version_meta(), Some("12".to_string()));
    s.clear_tasks();
    assert_eq!(s.task_list_version_meta(), None);
    let mut m = SessionRuntimeMetadata::unset();
    assert!(m.is_empty());
    m.todo_list_version = Some("1".to_string());
    assert!(!m.is_empty());
}
