use bamboo_storage::cleanup::{
    apply_removals, begin_clear, cleanup, clear_session, delete_session_recursive_locked,
    dev_reset, CleanupMode,
};
use bamboo_storage::deletion::{DeleteStep, Deletion, ResetStep, StoreReset};
use bamboo_storage::error::{other_io_error, ErrorKind, StorageError};
use bamboo_storage::index::{
    default_title_generated, index_entry, normalized_workspace, open_index,
    update_index_under_claim, IndexFile, SessionIndexEntry, SessionPlacement, SessionsIndex,
};
use bamboo_storage::load::{
    find_session, load_authoritative_root_session, load_runtime_control_plane_unchecked, load_session_from_dir,
    load_session_from_dir_strict, load_session_unlocked, migrate_runtime_sidecar,
    overlay_runtime_sidecar, probe_root_session_from_disk, read_runtime_sidecar_at,
    runtime_sidecar_snapshot, SessionPlace,
};
use bamboo_storage::metrics::SaveKind;
use bamboo_storage::probe::{Probe, SessionFile};
use bamboo_storage::rebuild::TreeEntry;
use bamboo_storage::root_publication::{
    begin_bootstrap, bootstrap_default_supervisor, BootstrapStart, LegacyOwner,
};
use bamboo_storage::save::{
    save_runtime_state, save_session, session_rel_path, RuntimeSavePlan, SaveRun, SaveStep,
};
use bamboo_storage::session::{
    AgentRuntimeState, Message, Role, Session, SessionAuthorityIdentity, SessionKind,
    SessionPermissionMode, SessionRuntimeMetadata,
};
use bamboo_storage::store::SessionStoreV2;
use bamboo_storage::supervisor::{
    load_root_authority_unchecked, validate_authority_for_save, validate_identity,
    validate_overlay, writer_conflict, IdentityFile, MainIdentity, RootFiles,
};
use bamboo_storage::time::Timestamp;

const SUPERVISOR: &str = "supervisor-default";

fn at(secs: i64) -> Timestamp {
    Timestamp { secs, nanos: 0 }
}

fn message(text: &str) -> Message {
    Message {
        role: Role::User,
        content_parts: None,
        image_ocr: None,
        compression_level: 0,
        system_resume: false,
        document: text.to_string(),
    }
}

fn root(id: &str) -> Session {
    Session::new_root(id, "model", "Title", at(100))
}

fn child(id: &str, root_id: &str, parent: &str, depth: u32) -> Session {
    let mut s = root(id);
    s.kind = SessionKind::Child;
    s.root_session_id = root_id.to_string();
    s.parent_session_id = Some(parent.to_string());
    s.spawn_depth = depth;
    s
}

fn supervisor(incarnation_id: u128) -> Session {
    let mut s = root(SUPERVISOR);
    s.authority_identity = SessionAuthorityIdentity::Supervisor { incarnation_id };
    s
}

fn fault(message: &str) -> StorageError {
    StorageError::new(ErrorKind::Other, message.to_string())
}

fn failure() -> StorageError {
    StorageError::new(ErrorKind::System(5), "disk".to_string())
}

fn entry(s: &Session) -> SessionIndexEntry {
    index_entry(s, session_rel_path(s).ok().unwrap(), false, &None, &None)
}

fn index_of(sessions: &[Session]) -> SessionsIndex {
    let mut index = SessionsIndex::empty(at(1));
    for s in sessions {
        index.upsert_index_from_session_inner(entry(s), false);
    }
    index
}

#[test]
fn a_full_save_writes_a_sidecar_without_history() {
    let mut s = root("r");
    s.messages.push(message("one"));
    s.messages.push(message("two"));
    let plan = save_session(&s, &Ok(None), &Ok(()), &Ok(None), SUPERVISOR).ok().unwrap();
    assert_eq!(plan.rel_path, "sessions/r");
    assert!(plan.holds_children);
    assert!(plan.sidecar.messages.is_empty());
    let back = load_session_unlocked(
        "r",
        true,
        SessionFile::Parsed(s.duplicate()),
        SessionFile::Parsed(plan.sidecar),
        SUPERVISOR,
    )
    .ok()
    .unwrap()
    .unwrap();
    assert!(back.same(&s));
    assert_eq!(back.messages.len(), 2);
}

#[test]
fn a_runtime_save_keeps_the_history_of_the_session_file() {
    let mut stored = root("r");
    stored.messages.push(message("kept"));
    let mut runtime = stored.duplicate();
    runtime.messages.clear();
    runtime.title = "newer".to_string();
    let plan = save_runtime_state(
        &runtime,
        SessionPlace::Listed("sessions/r".to_string()),
        &Ok(None),
        &Ok(()),
        &Ok(None),
        SUPERVISOR,
    )
    .ok()
    .unwrap();
    match plan {
        RuntimeSavePlan::Sidecar { rel_path, sidecar, listed } => {
            assert_eq!(rel_path, "sessions/r");
            assert!(listed);
            let back = overlay_runtime_sidecar(stored, Some(sidecar));
            assert_eq!(back.messages.len(), 1);
            assert_eq!(back.title, "newer");
        }
        RuntimeSavePlan::Full => panic!("the session was saved before"),
    }
}

#[test]
fn a_runtime_save_of_an_unknown_session_becomes_a_full_one() {
    let r = save_runtime_state(
        &root("r"),
        SessionPlace::Nowhere,
        &Err(failure()),
        &Err(failure()),
        &Ok(None),
        SUPERVISOR,
    );
    assert!(matches!(r, Ok(RuntimeSavePlan::Full)));
}

#[test]
fn a_session_is_found_where_it_stands() {
    let place = |listed: Option<&str>, main: Probe, runtime: Probe| {
        find_session("r", listed.map(|rel| rel.to_string()), &main, &runtime)
    };
    match place(Some("sessions/x/children/r"), Probe::Missing, Probe::Missing) {
        SessionPlace::Listed(rel) => assert_eq!(rel, "sessions/x/children/r"),
        _ => panic!("the index lists it"),
    }
    for (main, runtime) in [
        (Probe::File, Probe::File),
        (Probe::File, Probe::Missing),
        (Probe::Missing, Probe::File),
        (Probe::Failed(failure()), Probe::Missing),
    ] {
        match place(None, main, runtime) {
            SessionPlace::Unlisted(rel) => assert_eq!(rel, "sessions/r"),
            _ => panic!("it stands at its place"),
        }
    }
    assert!(matches!(place(None, Probe::Missing, Probe::Missing), SessionPlace::Nowhere));
    let r = find_session("../r", None, &Probe::File, &Probe::File);
    assert!(matches!(r, SessionPlace::Nowhere));
}

#[test]
fn a_stale_index_keeps_history_and_tasks() {
    let mut published = root("r");
    published.messages.push(message("New history absent from the runtime candidate"));
    published.set_tasks(Some("[\"Current task\"]".to_string()), "2".to_string());
    let place = || find_session("r", None, &Probe::File, &Probe::File);
    let durable = load_runtime_control_plane_unchecked(
        "r",
        Ok(None),
        &place(),
        SessionFile::Parsed(published.duplicate()),
        SessionFile::Parsed(runtime_sidecar_snapshot(&published)),
        SUPERVISOR,
    );
    let mut stale = root("r");
    stale.set_tasks(Some("[\"Old task\"]".to_string()), "1".to_string());
    let e = save_runtime_state(&stale, place(), &Ok(None), &Ok(()), &durable, SUPERVISOR)
        .err()
        .unwrap();
    assert_eq!(e.kind, ErrorKind::WouldBlock);
    let mut candidate = published.duplicate();
    candidate.messages.clear();
    let mut meta = candidate.runtime_metadata.take().unwrap_or(SessionRuntimeMetadata::unset());
    meta.project_id = Some("project-b".to_string());
    candidate.runtime_metadata = Some(meta);
    let plan = save_runtime_state(&candidate, place(), &Ok(None), &Ok(()), &durable, SUPERVISOR)
        .ok()
        .unwrap();
    let sidecar = match plan {
        RuntimeSavePlan::Sidecar { rel_path, sidecar, listed } => {
            assert_eq!(rel_path, "sessions/r");
            assert!(!listed);
            sidecar
        }
        RuntimeSavePlan::Full => panic!("a root stands at its place"),
    };
    let read = load_authoritative_root_session(
        "r",
        SessionFile::Parsed(published.duplicate()),
        SessionFile::Parsed(sidecar),
        SUPERVISOR,
    )
    .ok()
    .unwrap()
    .unwrap();
    let row = index_entry(
        &read,
        "sessions/r".to_string(),
        false,
        &None,
        &Some("project-b".to_string()),
    );
    assert_eq!(row.message_count, 1);
    assert_eq!(row.project_id, Some("project-b".to_string()));
    assert_eq!(read.messages[0].document, "New history absent from the runtime candidate");
    assert_eq!(read.task_list, published.task_list);
    let mut run = SaveRun::begin(SaveKind::Runtime, false);
    let mut steps = vec![];
    while run.step != SaveStep::Finished {
        steps.push(run.step);
        run = run.step(Ok(()), true);
    }
    assert_eq!(
        steps,
        vec![SaveStep::WriteSidecar, SaveStep::ListSession, SaveStep::Record]
    );
    let none = load_runtime_control_plane_unchecked(
        "r",
        Ok(None),
        &SessionPlace::Nowhere,
        SessionFile::Parsed(published.duplicate()),
        SessionFile::Parsed(published),
        SUPERVISOR,
    );
    assert!(none.ok().unwrap().is_none());
}

#[test]
fn refusals_come_in_their_order() {
    let fence = Err(StorageError::conflict(ErrorKind::WouldBlock, "fenced".to_string()));
    let mut stale = root("r");
    stale.set_tasks(Some("[]".to_string()), "1".to_string());
    let mut durable = root("r");
    durable.set_tasks(Some("[]".to_string()), "2".to_string());
    let e = save_session(&supervisor(7), &Err(failure()), &fence, &Ok(None), SUPERVISOR)
        .err()
        .unwrap();
    assert_eq!(e.message, "disk");
    assert!(e.authority_conflict);
    let e = save_session(&stale, &Ok(None), &fence, &Ok(Some(durable.duplicate())), SUPERVISOR)
        .err()
        .unwrap();
    assert_eq!(e.message, "fenced");
    assert!(e.authority_conflict);
    let e = save_session(&stale, &Ok(None), &Ok(()), &Ok(Some(durable)), SUPERVISOR).err().unwrap();
    assert_eq!(e.kind, ErrorKind::WouldBlock);
    assert_eq!(e.message, "Task control-plane changed while saving session r");
}

#[test]
fn every_descendant_is_stored_under_its_root() {
    assert_eq!(session_rel_path(&root("r")).ok().unwrap(), "sessions/r");
    assert_eq!(
        session_rel_path(&child("c", "r", "r", 1)).ok().unwrap(),
        "sessions/r/children/c"
    );
    assert_eq!(
        session_rel_path(&child("g", " r ", "c", 2)).ok().unwrap(),
        "sessions/r/children/g"
    );
    let mut orphan = child("c", "r", "r", 1);
    orphan.parent_session_id = Some("  ".to_string());
    let e = session_rel_path(&orphan).err().unwrap();
    assert_eq!(e.message, "child session missing root_session_id/parent_session_id");
    let bad = child("c", "../x", "r", 1);
    assert_eq!(
        session_rel_path(&bad).err().unwrap().message,
        "invalid session id: ../x"
    );
    assert!(session_rel_path(&root("a/b")).is_err());
}

#[test]
fn a_save_writes_the_sidecar_before_the_session() {
    let mut run = SaveRun::begin(SaveKind::Full, false);
    let mut steps = vec![];
    while run.step != SaveStep::Finished {
        steps.push(run.step);
        run = run.step(Ok(()), true);
    }
    assert_eq!(
        steps,
        vec![
            SaveStep::PrepareDirectories,
            SaveStep::WriteSidecar,
            SaveStep::WriteSession,
            SaveStep::PublishRevision,
            SaveStep::PublishIndex,
            SaveStep::EnqueueSearch,
            SaveStep::Record,
        ]
    );
    assert!(run.failure.is_none());
    let run = SaveRun::begin(SaveKind::Runtime, true).step(Ok(()), false);
    assert_eq!(run.step, SaveStep::Record);
    let run = SaveRun::begin(SaveKind::Runtime, true).step(Ok(()), true);
    assert_eq!(run.step, SaveStep::PublishIndex);
    let run = SaveRun::begin(SaveKind::Full, false).step(Ok(()), false).step(Err(failure()), false);
    assert_eq!(run.step, SaveStep::Finished);
    assert_eq!(run.failure.unwrap().message, "disk");
}

#[test]
fn a_sidecar_drops_what_the_session_file_keeps() {
    let mut s = root("r");
    s.messages.push(message("m"));
    s.conversation_summary = Some("sum".to_string());
    let side = runtime_sidecar_snapshot(&s);
    assert!(side.messages.is_empty());
    let back = overlay_runtime_sidecar(s.duplicate(), Some(side));
    assert!(back.same(&s));
    assert!(overlay_runtime_sidecar(s.duplicate(), None).same(&s));
}

#[test]
fn a_corrupt_sidecar_is_ignored_on_load() {
    let s = root("r");
    let r = load_session_unlocked(
        "r",
        true,
        SessionFile::Parsed(s.duplicate()),
        SessionFile::Corrupt("bad".to_string()),
        SUPERVISOR,
    );
    assert!(r.ok().unwrap().unwrap().same(&s));
    let none = read_runtime_sidecar_at(SessionFile::Corrupt("bad".to_string()), SUPERVISOR);
    assert!(none.ok().unwrap().is_none());
    let e = read_runtime_sidecar_at(SessionFile::Failed(failure()), SUPERVISOR).err().unwrap();
    assert_eq!(e.message, "disk");
}

#[test]
fn an_unknown_session_loads_as_none() {
    let r = load_session_unlocked(
        "r",
        false,
        SessionFile::Parsed(root("r")),
        SessionFile::Missing,
        SUPERVISOR,
    );
    assert!(r.ok().unwrap().is_none());
}

#[test]
fn a_corrupt_session_file_is_an_error() {
    let e = load_session_unlocked(
        "r",
        true,
        SessionFile::Corrupt("eof".to_string()),
        SessionFile::Missing,
        SUPERVISOR,
    )
    .err()
    .unwrap();
    assert_eq!(e.kind, ErrorKind::Other);
    assert_eq!(e.message, "invalid session.json: eof");
}

#[test]
fn a_root_budget_is_dropped_on_load_and_a_child_budget_kept() {
    let mut r = root("r");
    r.token_budget = Some("{}".to_string());
    let loaded = load_session_unlocked(
        "r",
        true,
        SessionFile::Parsed(r),
        SessionFile::Missing,
        SUPERVISOR,
    )
    .ok()
    .unwrap()
    .unwrap();
    assert_eq!(loaded.token_budget, None);
    let mut c = child("c", "r", "r", 1);
    c.token_budget = Some("{}".to_string());
    let loaded = load_session_unlocked(
        "c",
        true,
        SessionFile::Parsed(c),
        SessionFile::Missing,
        SUPERVISOR,
    )
    .ok()
    .unwrap()
    .unwrap();
    assert_eq!(loaded.token_budget, Some("{}".to_string()));
}

#[test]
fn a_directory_load_tolerates_what_a_strict_one_refuses() {
    let side = SessionFile::Corrupt("x".to_string());
    assert!(load_session_from_dir(SessionFile::Parsed(root("r")), side, SUPERVISOR).is_some());
    assert!(load_session_from_dir(SessionFile::Missing, SessionFile::Missing, SUPERVISOR).is_none());
    let e = load_session_from_dir_strict(
        "r",
        SessionKind::Root,
        "r",
        SessionFile::Parsed(root("r")),
        SessionFile::Corrupt("x".to_string()),
        SUPERVISOR,
    )
    .err()
    .unwrap();
    assert_eq!(e.kind, ErrorKind::InvalidData);
    assert_eq!(e.message, "invalid source runtime.json: x");
    let e = load_session_from_dir_strict(
        "other",
        SessionKind::Root,
        "other",
        SessionFile::Parsed(root("r")),
        SessionFile::Missing,
        SUPERVISOR,
    )
    .err()
    .unwrap();
    assert_eq!(e.message, "session identity does not match its expected canonical path");
    let e = load_session_from_dir_strict(
        "r",
        SessionKind::Root,
        "r",
        SessionFile::Parsed(root("r")),
        SessionFile::Parsed(root("q")),
        SUPERVISOR,
    )
    .err()
    .unwrap();
    assert_eq!(e.message, "source runtime sidecar identity does not match session.json");
}

#[test]
fn recovery_of_a_root_needs_its_own_file() {
    let ok = probe_root_session_from_disk(
        "r",
        SessionFile::Parsed(root("r")),
        SessionFile::Missing,
        SUPERVISOR,
    );
    assert!(ok.ok().unwrap().unwrap().same(&root("r")));
    let none =
        probe_root_session_from_disk("r", SessionFile::Missing, SessionFile::Missing, SUPERVISOR);
    assert!(none.ok().unwrap().is_none());
    let e = probe_root_session_from_disk(
        "r",
        SessionFile::Corrupt("eof".to_string()),
        SessionFile::Missing,
        SUPERVISOR,
    )
    .err()
    .unwrap();
    assert_eq!(e.message, "invalid authoritative session.json: eof");
    let e = load_authoritative_root_session(
        "r",
        SessionFile::Parsed(root("q")),
        SessionFile::Missing,
        SUPERVISOR,
    )
    .err()
    .unwrap();
    assert_eq!(e.message, "authoritative root session identity or kind mismatch");
}

#[test]
fn the_control_plane_is_read_from_the_sidecar() {
    let mut side = root("r");
    side.title = "side".to_string();
    let got = load_runtime_control_plane_unchecked(
        "r",
        Ok(None),
        &SessionPlace::Listed("sessions/r".to_string()),
        SessionFile::Missing,
        SessionFile::Parsed(side),
        SUPERVISOR,
    )
    .ok()
    .unwrap()
    .unwrap();
    assert_eq!(got.title, "side");
    let e = load_runtime_control_plane_unchecked(
        SUPERVISOR,
        Err(failure()),
        &SessionPlace::Listed(format!("sessions/{SUPERVISOR}")),
        SessionFile::Missing,
        SessionFile::Missing,
        SUPERVISOR,
    )
    .err()
    .unwrap();
    assert_eq!(e.message, "disk");
}

#[test]
fn migration_backfills_a_missing_sidecar_alone() {
    let mut s = root("r");
    s.messages.push(message("m"));
    let main = || SessionFile::Parsed(s.duplicate());
    let side = migrate_runtime_sidecar(false, main(), Ok(true), SUPERVISOR)
        .ok()
        .unwrap()
        .unwrap();
    assert!(side.same(&runtime_sidecar_snapshot(&s)));
    assert!(migrate_runtime_sidecar(true, main(), Ok(true), SUPERVISOR).ok().unwrap().is_none());
    let e = migrate_runtime_sidecar(false, main(), Ok(false), SUPERVISOR).err().unwrap();
    assert_eq!(e.kind, ErrorKind::InvalidData);
    assert_eq!(
        e.message,
        "cannot reconstruct the runtime of a deleted Root from session.json"
    );
    let e = migrate_runtime_sidecar(false, main(), Err(failure()), SUPERVISOR).err().unwrap();
    assert_eq!(e.message, "disk");
    let e = migrate_runtime_sidecar(false, SessionFile::Parsed(supervisor(1)), Ok(true), SUPERVISOR)
        .err()
        .unwrap();
    assert_eq!(e.message, "cannot reconstruct missing Supervisor authority from session.json");
}

#[test]
fn an_index_row_says_what_the_session_holds() {
    let mut s = root("r");
    s.messages.push(message("m"));
    s.metadata.insert("gold_config".to_string(), "{}".to_string());
    s.metadata.insert("lifecycle".to_string(), "  ".to_string());
    s.metadata.insert("placement".to_string(), "remote".to_string());
    let mut meta = SessionRuntimeMetadata::unset();
    meta.workspace_path = Some(" /w ".to_string());
    meta.project_id = Some("p".to_string());
    meta.last_run_status = Some("running".to_string());
    s.runtime_metadata = Some(meta);
    s.agent_runtime_state = Some(AgentRuntimeState::fresh(SessionPermissionMode::Bypass));
    let placement = Some(SessionPlacement {
        kind: "remote".to_string(),
        host: "h".to_string(),
    });
    let e = index_entry(&s, "sessions/r".to_string(), true, &placement, &Some("p".to_string()));
    assert_eq!(e.message_count, 1);
    assert_eq!(e.gold_config_json, Some("{}".to_string()));
    assert_eq!(e.lifecycle, None);
    assert_eq!(e.workspace_path, normalized_workspace(&s));
    assert_eq!(e.workspace_path, Some("/w".to_string()));
    assert_eq!(e.project_id, Some("p".to_string()));
    assert_eq!(e.last_run_status, Some("running".to_string()));
    assert!(e.bypass_permissions);
    assert!(e.has_attachments);
    assert!(!e.has_pending_question);
    assert_eq!(e.placement.unwrap().host, "h");
    let plain = index_entry(&root("q"), "sessions/q".to_string(), false, &placement, &None);
    assert!(plain.placement.is_none());
    assert!(!plain.bypass_permissions);
    assert!(default_title_generated());
}

#[test]
fn a_repair_never_takes_a_newer_row_back() {
    let mut newer = root("r");
    newer.updated_at = at(900);
    newer.title = "newer".to_string();
    let mut index = index_of(&[newer]);
    let mut moved = entry(&root("r"));
    moved.rel_path = "sessions/moved".to_string();
    index.upsert_index_from_session_inner(moved.duplicate(), true);
    let row = index.get_index_entry("r").unwrap();
    assert_eq!(row.title, "newer");
    assert_eq!(row.rel_path, "sessions/moved");
    index.upsert_index_from_session_inner(moved, false);
    assert_eq!(index.get_index_entry("r").unwrap().title, "Title");
}

#[test]
fn rows_are_listed_latest_first() {
    let mut a = root("a");
    a.updated_at = at(10);
    let mut b = root("b");
    b.updated_at = at(30);
    let mut c = root("c");
    c.updated_at = at(20);
    let index = index_of(&[a, b, c]);
    let ids: Vec<String> = index.list_index_entries().into_iter().map(|e| e.id).collect();
    assert_eq!(ids, vec!["b", "c", "a"]);
    assert!(SessionsIndex::empty(at(0)).list_index_entries().is_empty());
    assert!(index.get_index_entry("missing").is_none());
    assert_eq!(index.resolve_rel_path("a"), Some("sessions/a".to_string()));
}

#[test]
fn run_statuses_are_found_by_parent_and_by_status() {
    let mut c = child("c", "r", "r", 1);
    let mut meta = SessionRuntimeMetadata::unset();
    meta.last_run_status = Some("running".to_string());
    c.runtime_metadata = Some(meta);
    let d = child("d", "r", "other", 1);
    let store = SessionStoreV2::new("/h".to_string(), index_of(&[root("r"), c, d]));
    assert_eq!(
        store.list_child_run_statuses("r"),
        vec![("c".to_string(), Some("running".to_string()))]
    );
    assert_eq!(
        store.list_sessions_by_run_status("running"),
        vec![("c".to_string(), Some("r".to_string()))]
    );
    assert!(store.list_sessions_by_run_status("done").is_empty());
    assert_eq!(
        store.session_json_path("c"),
        Some("/h/sessions/r/children/c/session.json".to_string())
    );
    assert_eq!(
        store.runtime_json_path("c"),
        Some("/h/sessions/r/children/c/runtime.json".to_string())
    );
    assert_eq!(store.attachments_dir("r"), Some("/h/sessions/r/attachments".to_string()));
}

#[test]
fn a_bad_index_is_rebuilt_and_a_missing_one_starts_empty() {
    let opened = open_index(IndexFile::Corrupt("x".to_string()), at(5)).ok().unwrap();
    assert!(opened.needs_rebuild && opened.back_up && opened.publish);
    assert!(opened.index.list_index_entries().is_empty());
    let opened = open_index(IndexFile::Missing, at(5)).ok().unwrap();
    assert!(!opened.back_up && !opened.needs_rebuild);
    assert!(opened.publish);
    let mut old = SessionsIndex::empty(at(1));
    old.version = 2;
    let opened = open_index(IndexFile::Parsed(old), at(5)).ok().unwrap();
    assert!(opened.needs_rebuild);
    let current = open_index(IndexFile::Parsed(index_of(&[root("r")])), at(5)).ok().unwrap();
    assert!(!current.needs_rebuild && !current.back_up);
    assert!(current.index.get_index_entry("r").is_some());
    assert!(open_index(IndexFile::Failed(failure()), at(5)).is_err());
}

#[test]
fn updates_under_claim_rebase_on_what_is_on_disk() {
    let memory = index_of(&[root("a")]);
    let merged = update_index_under_claim(&memory, IndexFile::Parsed(index_of(&[root("b")])))
        .ok()
        .unwrap();
    assert!(merged.get_index_entry("b").is_some());
    let kept = update_index_under_claim(&memory, IndexFile::Missing).ok().unwrap();
    assert!(kept.get_index_entry("a").is_some());
    let e = update_index_under_claim(&memory, IndexFile::Corrupt("x".to_string())).err().unwrap();
    assert_eq!(e.message, "invalid sessions.json during locked update: x");
}

#[test]
fn ownership_is_compared_and_replaced() {
    let mut index = index_of(&[root("r")]);
    let w = Some("/w".to_string());
    assert!(index.runtime_index_changed("r", &w, &None));
    index.set_ownership("r", w.clone(), None);
    assert!(!index.runtime_index_changed("r", &w, &None));
    assert!(index.runtime_index_changed("r", &w, &Some("p".to_string())));
    index.remove("r");
    assert!(index.get_index_entry("r").is_none());
}

#[test]
fn cleanup_spares_what_is_pinned() {
    let mut pinned = root("pinned");
    pinned.pinned = true;
    let mut used = root("used");
    used.messages.push(message("m"));
    used.messages.push(message("n"));
    let index = index_of(&[pinned, used, root("empty"), child("c", "used", "used", 1)]);
    let all = cleanup(&index, CleanupMode::All, true);
    assert!(!all.result.deleted_session_ids.contains(&"pinned".to_string()));
    assert!(all.result.deleted_session_ids.contains(&"c".to_string()));
    assert_eq!(all.result.deleted_count, all.result.deleted_session_ids.len());
    assert_eq!(all.result.deleted_count, 3);
    let every = cleanup(&index, CleanupMode::All, false);
    assert_eq!(every.result.deleted_count, 4);
    let empty = cleanup(&index, CleanupMode::Empty, true);
    assert_eq!(empty.roots, vec!["empty".to_string()]);
    assert_eq!(empty.children, vec!["c".to_string()]);
    let children = cleanup(&index, CleanupMode::Children, true);
    assert!(children.roots.is_empty());
    assert_eq!(children.children, vec!["c".to_string()]);
}

#[test]
fn a_cleanup_removes_what_it_reports() {
    let mut pinned = root("pinned");
    pinned.pinned = true;
    let sessions = [
        pinned,
        root("r"),
        child("c", "r", "r", 1),
        root("s"),
        child("d", "pinned", "pinned", 1),
    ];
    for mode in [CleanupMode::All, CleanupMode::Empty, CleanupMode::Children] {
        for keep_pinned in [true, false] {
            let before = index_of(&sessions);
            let plan = cleanup(&before, mode, keep_pinned);
            let mut after = index_of(&sessions);
            for id in plan.roots.iter().chain(plan.children.iter()) {
                let gone = delete_session_recursive_locked(&after, id, true).ok().unwrap().unwrap();
                apply_removals(&mut after, &gone.removals);
            }
            for entry in before.list_index_entries() {
                let reported = plan.result.deleted_session_ids.contains(&entry.id);
                assert_eq!(after.get_index_entry(&entry.id).is_none(), reported);
            }
        }
    }
}

#[test]
fn deleting_a_root_removes_its_tree() {
    let mut index = index_of(&[root("r"), child("c", "r", "r", 1), root("q")]);
    let plan = delete_session_recursive_locked(&index, "r", false).ok().unwrap().unwrap();
    assert_eq!(plan.directory, "sessions/r");
    let mut ids: Vec<String> = plan.removals.iter().map(|r| r.session_id.clone()).collect();
    ids.sort();
    assert_eq!(ids, vec!["c", "r"]);
    apply_removals(&mut index, &plan.removals);
    assert!(index.get_index_entry("c").is_none());
    assert!(index.get_index_entry("r").is_none());
    assert!(index.get_index_entry("q").is_some());
    assert!(delete_session_recursive_locked(&index, "gone", false).ok().unwrap().is_none());
    assert_eq!(dev_reset(&index).len(), 1);
}

#[test]
fn a_root_is_revoked_before_it_is_removed() {
    let index = index_of(&[root("r"), child("c", "r", "r", 1)]);
    let mut d = Deletion::begin(&index, "r", false, Ok(Some(at(3))), Ok(Some(at(7))), Ok(true));
    let revocation = d.revocation.as_ref().unwrap();
    assert_eq!(revocation.session_id, "r");
    assert_eq!(revocation.revoked_through, at(7));
    let mut steps = vec![];
    while d.step != DeleteStep::Finished {
        steps.push(d.step);
        let came = match d.step {
            DeleteStep::RemoveDirectory => Err(fault("busy")),
            _ => Ok(()),
        };
        d = d.step(came);
    }
    assert_eq!(
        steps,
        vec![
            DeleteStep::Revoke,
            DeleteStep::RemoveDirectory,
            DeleteStep::PublishIndex,
            DeleteStep::ForgetSearch,
        ]
    );
    assert_eq!(d.removals.as_ref().unwrap().len(), 2);
    assert!(d.answer().unwrap());

    let d = Deletion::begin(&index, "r", false, Ok(None), Ok(Some(at(7))), Ok(true));
    let d = d.step(Err(fault("disk")));
    assert_eq!(d.step, DeleteStep::Finished);
    assert_eq!(d.answer().unwrap_err().message, "disk");

    let d = Deletion::begin(&index, "c", false, Err(fault("x")), Err(fault("x")), Err(fault("x")));
    assert_eq!(d.step, DeleteStep::RemoveDirectory);
    assert!(d.revocation.is_none());
    assert_eq!(d.directory, "sessions/r/children/c");

    let d = Deletion::begin(&index, "gone", false, Ok(None), Ok(None), Ok(true));
    assert_eq!(d.step, DeleteStep::Finished);
    assert!(!d.answer().unwrap());
    let d = Deletion::begin(&index, "gone", false, Ok(None), Ok(Some(at(2))), Ok(true));
    assert_eq!(d.step, DeleteStep::Revoke);
    assert_eq!(d.directory, "sessions/gone");
    let d = Deletion::begin(&index, "left", false, Ok(Some(at(2))), Ok(None), Ok(true));
    assert_eq!(d.step, DeleteStep::RemoveDirectory);
    let d = d.step(Ok(()));
    assert_eq!(d.step, DeleteStep::Finished);
    assert!(d.answer().unwrap());
    let d = Deletion::begin(&index, "left", false, Ok(Some(at(2))), Ok(None), Ok(false));
    assert!(!d.answer().unwrap());
    let d = Deletion::begin(&index, "r", false, Ok(None), Err(fault("torn")), Ok(true));
    assert_eq!(d.answer().unwrap_err().message, "torn");
    let d = Deletion::begin(&index, "../r", true, Err(fault("x")), Err(fault("x")), Ok(true));
    assert_eq!(d.step, DeleteStep::Finished);
    assert!(!d.answer().unwrap());
}

#[test]
fn a_reset_revokes_every_root_first() {
    let entry = |name: Option<&str>, is_directory: bool| TreeEntry {
        name: name.map(|n| n.to_string()),
        is_directory,
    };
    let listing = vec![
        entry(Some("a"), true),
        entry(Some("file"), false),
        entry(None, true),
        entry(Some("b"), true),
    ];
    let mut r = StoreReset::begin(Ok(listing));
    assert_eq!(r.roots, vec!["a", "b"]);
    let mut steps = vec![];
    while r.step != ResetStep::Finished {
        steps.push((r.step, r.next));
        r = r.step(Ok(()));
    }
    assert_eq!(
        steps,
        vec![
            (ResetStep::Revoke, 0),
            (ResetStep::Revoke, 1),
            (ResetStep::RemoveTree, 2),
            (ResetStep::CreateTree, 2),
            (ResetStep::PublishIndex, 2),
            (ResetStep::ForgetSearch, 2),
        ]
    );
    assert!(r.failure.is_none());
    let r = StoreReset::begin(Ok(vec![entry(Some("a"), true)])).step(Err(fault("torn")));
    assert_eq!(r.step, ResetStep::Finished);
    assert_eq!(r.failure.unwrap().message, "torn");
    let r = StoreReset::begin(Ok(vec![]));
    assert_eq!(r.step, ResetStep::RemoveTree);
    let r = r.step(Err(fault("busy")));
    assert_eq!(r.step, ResetStep::CreateTree);
    let r = StoreReset::begin(Err(fault("unlisted")));
    assert_eq!(r.step, ResetStep::CreateTree);
    assert!(!r.listed && r.roots.is_empty());
    let r = r.step(Ok(())).step(Ok(())).step(Ok(()));
    assert_eq!(r.step, ResetStep::Finished);
    assert!(r.failure.is_none());
}

#[test]
fn a_pinned_session_is_deleted_only_by_force() {
    let mut p = root("p");
    p.pinned = true;
    let store = SessionStoreV2::new("/h".to_string(), index_of(&[p]));
    let refused = store.delete_session_recursive("p", false, Ok(None), Ok(Some(at(5))), Ok(true));
    assert_eq!(refused.step, DeleteStep::Finished);
    assert_eq!(
        refused.answer().unwrap_err().message,
        "refusing to delete pinned session without force"
    );
    let forced = store.delete_session_recursive("p", true, Ok(None), Ok(Some(at(5))), Ok(true));
    assert_eq!(forced.step, DeleteStep::Revoke);
    assert_eq!(forced.directory, "sessions/p");
    assert_eq!(store.cleanup(CleanupMode::All, false).result.deleted_count, 1);
    assert_eq!(store.dev_reset().len(), 1);
    assert_eq!(store.list_index_entries().len(), 1);
    assert!(store.get_index_entry("p").is_some());
    assert_eq!(store.resolve_rel_path("p"), Some("sessions/p".to_string()));
}

#[test]
fn clearing_is_idempotent() {
    let mut s = root("r");
    s.messages.push(message("m"));
    s.set_tasks(Some("[]".to_string()), "4".to_string());
    s.metadata.insert("k".to_string(), "v".to_string());
    clear_session(&mut s, at(200));
    assert!(s.messages.is_empty());
    assert_eq!(s.updated_at, at(200));
    let once = s.duplicate();
    clear_session(&mut s, at(200));
    assert!(s.same(&once));
    let fenced = Err(other_io_error("fenced"));
    assert_eq!(begin_clear(Ok(Some(s)), &fenced, at(1)).err().unwrap().message, "fenced");
    assert!(begin_clear(Ok(None), &fenced, at(1)).ok().unwrap().is_none());
}

fn main_identity(s: &Session) -> MainIdentity {
    MainIdentity {
        id: s.id.clone(),
        kind: s.kind,
        root_session_id: s.root_session_id.clone(),
        parent_session_id: s.parent_session_id.clone(),
        spawn_depth: s.spawn_depth,
        created_at: s.created_at,
        authority_identity: s.authority_identity,
    }
}

fn root_files(main: &Session, runtime: Session) -> RootFiles {
    RootFiles {
        sessions_directory: Probe::Directory,
        directory: Probe::Directory,
        main_file: Probe::File,
        main: IdentityFile::Parsed(main_identity(main)),
        runtime_file: Probe::File,
        runtime: SessionFile::Parsed(runtime),
    }
}

#[test]
fn a_second_bootstrap_finds_the_first() {
    let first = bootstrap_default_supervisor(SUPERVISOR, "model", at(3));
    let made = match first.authority_identity {
        SessionAuthorityIdentity::Supervisor { incarnation_id } => incarnation_id,
        SessionAuthorityIdentity::Ordinary => panic!("a Supervisor was made"),
    };
    let files = root_files(&first, runtime_sidecar_snapshot(&first));
    let existing = load_root_authority_unchecked(SUPERVISOR, files, SUPERVISOR);
    let owner = LegacyOwner {
        runtime_missing: false,
        main_file: Probe::File,
        main: SessionFile::Missing,
    };
    match begin_bootstrap(existing, &owner, "another", SUPERVISOR).ok().unwrap() {
        BootstrapStart::Existing { incarnation_id } => assert_eq!(incarnation_id, made),
        BootstrapStart::Create => panic!("there is one"),
    }
}

#[test]
fn root_authority_needs_both_files_to_agree() {
    let s = supervisor(7);
    let got = load_root_authority_unchecked(SUPERVISOR, root_files(&s, s.duplicate()), SUPERVISOR);
    assert!(got.ok().unwrap().unwrap().same(&s));
    let other = supervisor(8);
    let e = load_root_authority_unchecked(SUPERVISOR, root_files(&s, other), SUPERVISOR)
        .err()
        .unwrap();
    assert_eq!(e.kind, ErrorKind::InvalidData);
    assert_eq!(
        e.message,
        "session_authority: canonical Root identity mismatch"
    );
    let mut born_later = supervisor(7);
    born_later.created_at = at(101);
    assert!(load_root_authority_unchecked(SUPERVISOR, root_files(&s, born_later), SUPERVISOR).is_err());
    let mut files = root_files(&s, s.duplicate());
    files.runtime_file = Probe::Missing;
    let e = load_root_authority_unchecked(SUPERVISOR, files, SUPERVISOR).err().unwrap();
    assert_eq!(
        e.message,
        "session_authority: published Root has missing canonical files"
    );
    let mut files = root_files(&s, s.duplicate());
    files.main = IdentityFile::Corrupt;
    let e = load_root_authority_unchecked(SUPERVISOR, files, SUPERVISOR).err().unwrap();
    assert_eq!(e.message, "session_authority: invalid canonical session.json");
    let mut files = root_files(&s, s.duplicate());
    files.directory = Probe::Missing;
    assert!(load_root_authority_unchecked(SUPERVISOR, files, SUPERVISOR).ok().unwrap().is_none());
}

#[test]
fn identities_and_overlays_are_checked() {
    assert!(validate_identity(&root("r"), SUPERVISOR).is_ok());
    assert!(validate_identity(&supervisor(7), SUPERVISOR).is_ok());
    let e = validate_identity(&supervisor(0), SUPERVISOR).err().unwrap();
    assert_eq!(
        e.message,
        "session_authority: invalid Supervisor identity or Root lineage"
    );
    let mut elsewhere = supervisor(7);
    elsewhere.id = "elsewhere".to_string();
    assert!(validate_identity(&elsewhere, SUPERVISOR).is_err());
    assert!(validate_overlay(&root("r"), &Some(root("r")), SUPERVISOR).is_ok());
    assert_eq!(
        validate_overlay(&supervisor(7), &None, SUPERVISOR).err().unwrap().message,
        "session_authority: published Supervisor is missing runtime authority"
    );
    assert_eq!(
        validate_overlay(&supervisor(7), &Some(supervisor(8)), SUPERVISOR).err().unwrap().message,
        "session_authority: runtime authority does not match the published Session"
    );
}

#[test]
fn saves_never_move_authority() {
    let s = supervisor(7);
    assert!(validate_authority_for_save(&s, &Ok(Some(s.duplicate())), SUPERVISOR).is_ok());
    let e = validate_authority_for_save(&supervisor(8), &Ok(Some(s.duplicate())), SUPERVISOR)
        .err()
        .unwrap();
    assert!(e.authority_conflict);
    assert!(e
        .message
        .ends_with("writer identity does not match the durable Session; reload before saving"));
    let e = validate_authority_for_save(&s, &Ok(None), SUPERVISOR).err().unwrap();
    assert!(e
        .message
        .ends_with("only trusted bootstrap can create Supervisor authority"));
    let c = writer_conflict(failure());
    assert!(c.authority_conflict);
}
