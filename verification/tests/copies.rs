use bamboo_storage::attachments::write_image_attachment;
use bamboo_storage::copy::{
    check_copy_request, check_session_copy_journal, copied_session_snapshot,
    copy_session_with_projection_guard, copy_source_identity_from_rel, recover_committed_copy,
    rewrite_attachment_session_urls, session_copy_staging_dir, validate_session_copy_journal,
    SessionCopyJournalMarkerState, SessionCopyTransactionJournal,
};
use bamboo_storage::copy_protocol::{
    CopyAction, CopyOutcome, CopyPhase, CopyRecovery, CopyRecoveryPhase, CopyTransaction,
};
use bamboo_storage::copy_recovery::{
    directory_has_regular_files, session_copy_journal_paths, write_copied_session, CopySweep,
    CopySweepStep, CopyWriteStep,
};
use bamboo_storage::error::{ErrorKind, StorageError};
use bamboo_storage::index::{index_entry, SessionsIndex};
use bamboo_storage::paths::tombstone_name;
use bamboo_storage::session::{
    AgentRuntimeState, ImageOcrResult, Message, MessagePart, Role, Session, SessionKind,
    SessionPermissionMode, SessionRuntimeMetadata,
};
use bamboo_storage::task_journal::{DirEntry, RuntimeTaskJournalMarkerState};
use bamboo_storage::time::Timestamp;

const UUID: &str = "67e55044-10b1-426f-9247-bb680e5fe0c8";

fn at(secs: i64) -> Timestamp {
    Timestamp { secs, nanos: 0 }
}

fn failure(message: &str) -> StorageError {
    StorageError::new(ErrorKind::System(28), message.to_string())
}

fn source() -> Session {
    let mut s = Session::new_root("child-source", "gpt-5", "Research", at(10));
    s.kind = SessionKind::Child;
    s.root_session_id = "root-source".to_string();
    s.parent_session_id = Some("root-source".to_string());
    s.spawn_depth = 1;
    s.pinned = true;
    s.model_ref = Some("openai-instance/gpt-5".to_string());
    s.reasoning_effort = Some("high".to_string());
    s.pending_question = Some("Proceed?".to_string());
    s.token_budget = Some("{}".to_string());
    s.token_usage = Some("{}".to_string());
    let mut meta = SessionRuntimeMetadata::unset();
    meta.project_id = Some("project-1".to_string());
    meta.workspace_path = Some("/workspaces/project-1".to_string());
    meta.last_run_status = Some("running".to_string());
    meta.last_run_error = Some("old failure".to_string());
    meta.pending_injected_messages = Some(vec!["queued".to_string()]);
    s.runtime_metadata = Some(meta);
    s.set_tasks(Some("Source tasks".to_string()), "7".to_string());
    s.agent_runtime_state = Some(AgentRuntimeState {
        permission_mode: SessionPermissionMode::Auto,
        plan_mode: None,
        document: "run-1".to_string(),
    });
    for (k, v) in [
        ("base_system_prompt", "You are exact."),
        ("gold_config", "{\"goal\":\"ship\"}"),
        ("a2a.context_id", "remote-context"),
        ("created_by_schedule_id", "schedule-1"),
        ("assignment_prompt", "child-only"),
        ("goal.state", "{\"status\":\"active\"}"),
        ("permission.audit_revision", "42"),
        ("runtime_prompt_snapshot", "stale"),
        ("workflow.run_ids.v1", "[]"),
        ("workflow.selection.v1", "{}"),
        ("workflow.orchestration_opt_in", "true"),
        ("workflow.active.v1", "stale-active"),
        ("workflow.active.snapshot.v1", "durable-snapshot"),
        ("workflow.activation_event.v1", "stale-event"),
        ("skill_runtime_selected_skill_ids", "[\"stale\"]"),
        ("selected_skill_ids", "[\"review\"]"),
        ("skill_mode", "code"),
        ("workspace_source", "project_default"),
        ("execute.pending_turn_message_id", "message-old"),
        ("context_pressure_last_level", "high"),
        ("permission.reexecute_tool_call_id", "call-1"),
        ("permission.reexecute_request_generation", "generation-call-1"),
        ("prefix_cache_section_state", "stale"),
        ("llm_request_render", "stale"),
        ("custom.copy_config", "preserve-me"),
    ] {
        s.metadata.insert(k.to_string(), v.to_string());
    }
    s
}

fn audit_keys() -> Vec<String> {
    vec!["permission.audit_revision".to_string()]
}

#[test]
fn a_copy_is_an_independent_root() {
    let mut s = source();
    let written = write_image_attachment(&s, "data:image/png;base64,aGVsbG8=", Some("image/png"))
        .ok()
        .unwrap();
    assert_eq!(written.bytes, b"hello".to_vec());
    s.messages.push(Message {
        role: Role::User,
        content_parts: Some(vec![MessagePart::ImageUrl {
            url: written.url.clone(),
            document: "{}".to_string(),
        }]),
        image_ocr: Some(vec![ImageOcrResult {
            image_url: written.url.clone(),
            document: "{}".to_string(),
        }]),
        compression_level: 0,
        system_resume: false,
        document: "look".to_string(),
    });
    let mut copied = copied_session_snapshot(
        s.duplicate(),
        "copy-root",
        at(500),
        &audit_keys(),
        s.document.clone(),
    );
    rewrite_attachment_session_urls(&mut copied, "child-source", "copy-root");
    assert_eq!(copied.kind, SessionKind::Root);
    assert_eq!(copied.id, "copy-root");
    assert_eq!(copied.root_session_id, "copy-root");
    assert_eq!(copied.parent_session_id, None);
    assert_eq!(copied.spawn_depth, 0);
    assert_eq!(copied.title, "Research (copy)");
    assert!(copied.title_generated);
    assert!(!copied.pinned);
    assert_eq!(copied.model_ref, s.model_ref);
    assert_eq!(copied.project_id_meta(), Some("project-1".to_string()));
    assert_eq!(
        copied.workspace_path_meta(),
        Some("/workspaces/project-1".to_string())
    );
    assert_eq!(copied.reasoning_effort, Some("high".to_string()));
    assert_eq!(copied.pending_question, None);
    assert_eq!(copied.last_run_status(), None);
    assert_eq!(copied.last_run_error(), None);
    assert_eq!(
        copied.runtime_metadata.as_ref().unwrap().pending_injected_messages,
        None
    );
    for key in [
        "base_system_prompt",
        "gold_config",
        "workflow.selection.v1",
        "workflow.orchestration_opt_in",
        "workflow.active.v1",
        "workflow.active.snapshot.v1",
        "selected_skill_ids",
        "skill_mode",
        "workspace_source",
        "custom.copy_config",
    ] {
        assert_eq!(copied.metadata.get(key), s.metadata.get(key));
        assert!(copied.metadata.contains_key(key));
    }
    assert_eq!(copied.metadata.len(), 10);
    assert_eq!(copied.token_budget, None);
    assert_eq!(copied.token_usage, None);
    assert_eq!(copied.task_list, None);
    assert_eq!(copied.task_list_version_meta(), None);
    assert_eq!(copied.prompt_snapshot, None);
    assert!(copied.model_context_state.is_none());
    let state = copied.agent_runtime_state.as_ref().unwrap();
    assert_eq!(state.permission_mode, SessionPermissionMode::Auto);
    assert_ne!(state.document, "run-1");
    let url = format!("bamboo-attachment://copy-root/{}", written.attachment_id);
    let message = copied.messages.last().unwrap();
    match &message.content_parts.as_ref().unwrap()[0] {
        MessagePart::ImageUrl { url: u, .. } => assert_eq!(*u, url),
        MessagePart::Other { .. } => panic!("expected an image"),
    }
    assert_eq!(message.image_ocr.as_ref().unwrap()[0].image_url, url);
}

#[test]
fn only_urls_of_the_source_move() {
    let mut s = source();
    for u in ["bamboo-attachment://child-source/x", "bamboo-attachment://child-source2/x", "http://y"] {
        s.messages.push(Message {
            role: Role::Assistant,
            content_parts: Some(vec![MessagePart::ImageUrl {
                url: u.to_string(),
                document: "d".to_string(),
            }]),
            image_ocr: None,
            compression_level: 0,
            system_resume: false,
            document: "m".to_string(),
        });
    }
    rewrite_attachment_session_urls(&mut s, "child-source", "n");
    let urls: Vec<String> = s
        .messages
        .iter()
        .map(|m| match &m.content_parts.as_ref().unwrap()[0] {
            MessagePart::ImageUrl { url, .. } => url.clone(),
            MessagePart::Other { document } => document.clone(),
        })
        .collect();
    assert_eq!(
        urls,
        vec![
            "bamboo-attachment://n/x",
            "bamboo-attachment://child-source2/x",
            "http://y"
        ]
    );
}

#[test]
fn copy_requests_are_checked() {
    let mut index = SessionsIndex::empty(at(0));
    for id in ["r", "q"] {
        let r = Session::new_root(id, "m", "t", at(1));
        index.upsert_index_from_session_inner(
            index_entry(&r, format!("sessions/{}", id), false, &None, &None),
            false,
        );
    }
    assert!(check_copy_request("r", "n", &index).is_ok());
    let e = check_copy_request("r", "r", &index).err().unwrap();
    assert_eq!(e.message, "source and copied session ids must differ");
    assert!(check_copy_request("x", "r", &index).ok().unwrap().is_none());
    let e = check_copy_request("q", "r", &index).err().unwrap();
    assert_eq!(e.kind, ErrorKind::AlreadyExists);
    assert_eq!(e.message, "copied session id already exists");
    assert!(check_copy_request("r", "../n", &index).is_err());
    assert!(check_copy_request("../r", "n", &index).is_err());
}

#[test]
fn source_paths_are_canonical() {
    let (kind, root) = copy_source_identity_from_rel("r", "sessions/r").ok().unwrap();
    assert_eq!((kind, root.as_str()), (SessionKind::Root, "r"));
    let (kind, root) = copy_source_identity_from_rel("c", "sessions/r/children/c").ok().unwrap();
    assert_eq!((kind, root.as_str()), (SessionKind::Child, "r"));
    let e = copy_source_identity_from_rel("c", "sessions/r").err().unwrap();
    assert_eq!(e.kind, ErrorKind::InvalidData);
    assert_eq!(e.message, "source session index path is not canonical");
    assert!(copy_source_identity_from_rel("c", "sessions/r/c").is_err());
    assert!(copy_source_identity_from_rel("c", "sessions/../children/c").is_err());
}

#[test]
fn a_copy_is_planned_from_a_loaded_source() {
    let s = source();
    let plan = copy_session_with_projection_guard(
        "child-source",
        "n",
        Ok(Some(s.duplicate())),
        Ok(false),
        UUID.to_string(),
        at(9),
        &audit_keys(),
        "rest".to_string(),
    )
    .ok()
    .unwrap();
    let mut expected =
        copied_session_snapshot(source(), "n", at(9), &audit_keys(), "rest".to_string());
    rewrite_attachment_session_urls(&mut expected, "child-source", "n");
    assert!(plan.copy.same(&expected));
    assert_eq!(plan.journal.source_id, "child-source");
    assert_eq!(plan.journal.target_id, "n");
    assert_eq!(session_copy_staging_dir(&plan.journal), format!(".session-copy-{}", UUID));
    assert!(validate_session_copy_journal(&format!("{}.json", UUID), &plan.journal).is_ok());
    assert!(recover_committed_copy(Ok(Some(plan.copy))).is_ok());
    let e = copy_session_with_projection_guard(
        "s",
        "n",
        Ok(None),
        Ok(false),
        UUID.to_string(),
        at(9),
        &audit_keys(),
        "rest".to_string(),
    )
    .err()
    .unwrap();
    assert_eq!(e.kind, ErrorKind::NotFound);
    assert_eq!(e.message, "indexed source session.json is missing");
    let e = copy_session_with_projection_guard(
        "s",
        "n",
        Ok(Some(source())),
        Ok(true),
        UUID.to_string(),
        at(9),
        &audit_keys(),
        "rest".to_string(),
    )
    .err()
    .unwrap();
    assert_eq!(e.message, "copied session directory already exists");
    let e = recover_committed_copy(Ok(None)).err().unwrap();
    assert_eq!(e.message, "committed copied session target is missing");
    let e = recover_committed_copy(Ok(Some(s))).err().unwrap();
    assert_eq!(e.message, "committed copied session is not an independent root");
}

fn journal() -> SessionCopyTransactionJournal {
    SessionCopyTransactionJournal {
        version: 1,
        transaction_id: UUID.to_string(),
        source_id: "s".to_string(),
        target_id: "n".to_string(),
    }
}

#[test]
fn copy_journals_are_checked() {
    let path = format!("d/{}.committed", UUID);
    assert!(validate_session_copy_journal(&path, &journal()).is_ok());
    let e = validate_session_copy_journal("d/nope.json", &journal()).unwrap_err();
    assert!(e.message.starts_with("invalid session copy transaction UUID: "));
    let mut j = journal();
    j.version = 9;
    assert_eq!(
        validate_session_copy_journal(&path, &j).unwrap_err().message,
        "unsupported session copy transaction journal version 9"
    );
    let mut j = journal();
    j.transaction_id = "other".to_string();
    assert_eq!(
        validate_session_copy_journal(&path, &j).unwrap_err().message,
        "session copy transaction id does not match its filename"
    );
    let mut j = journal();
    j.target_id = "s".to_string();
    assert_eq!(
        validate_session_copy_journal(&path, &j).unwrap_err().message,
        "session copy transaction source and target must differ"
    );
    let e = check_session_copy_journal(&path, &journal(), &Err("short".to_string())).unwrap_err();
    assert_eq!(e.message, "invalid session copy transaction UUID: short");
    assert_eq!(
        SessionCopyJournalMarkerState::from_path("x.committing"),
        Some(SessionCopyJournalMarkerState::Committing)
    );
    assert_eq!(SessionCopyJournalMarkerState::from_path("x.txt"), None);
    let marker = "0b9cc4a0-0000-4000-8000-000000000001.committing";
    let tombstone = tombstone_name(marker).unwrap();
    assert!(tombstone.starts_with("0b9cc4a0-0000-4000-8000-000000000001.removed."));
    assert_eq!(tombstone.len(), 36 + ".removed.".len() + 36);
    assert_eq!(SessionCopyJournalMarkerState::from_path(&tombstone), None);
    assert_eq!(RuntimeTaskJournalMarkerState::from_path(&tombstone), None);
    assert!(tombstone_name(marker).unwrap() != tombstone);
    assert!(tombstone_name("..").is_none());
}

// A disk on which the actions of a copy are carried out.
struct Disk {
    marker: Option<SessionCopyJournalMarkerState>,
    target: bool,
    indexed: bool,
}

impl Disk {
    fn perform(&mut self, action: CopyAction) -> CopyOutcome {
        match action {
            CopyAction::WriteJournal => self.marker = Some(SessionCopyJournalMarkerState::Prepared),
            CopyAction::WriteTarget => self.target = true,
            CopyAction::RenameMarker(from, to) => {
                assert_eq!(self.marker, Some(from));
                self.marker = Some(to);
            }
            CopyAction::PublishIndex | CopyAction::Republish => {
                assert!(self.target);
                self.indexed = true;
            }
            CopyAction::Deactivate => self.marker = None,
            CopyAction::HideIndex => self.indexed = false,
            CopyAction::RemoveTarget => {
                if !self.target {
                    return CopyOutcome::Absent;
                }
                self.target = false;
            }
            CopyAction::RemoveStaging => return CopyOutcome::Absent,
            CopyAction::DeactivateIfPresent(s) => {
                if self.marker == Some(s) {
                    self.marker = None;
                }
            }
            CopyAction::PublishRevision
            | CopyAction::SyncMarkers
            | CopyAction::SyncTarget
            | CopyAction::SyncStaging
            | CopyAction::ForgetSearch
            | CopyAction::Finish => {}
        }
        CopyOutcome::Done
    }

    fn recover(&mut self) {
        if self.marker.is_some() {
            let mut r = CopyRecovery::recover_session_copy_journal(self.marker);
            while r.phase != CopyRecoveryPhase::Finished {
                let o = self.perform(r.action());
                r = r.step(o, "/t", "/g");
            }
            assert!(r.failure.is_none());
        }
    }
}

fn fresh() -> Disk {
    Disk {
        marker: None,
        target: false,
        indexed: false,
    }
}

#[test]
fn a_copy_is_published_whole() {
    let mut disk = fresh();
    let mut t = CopyTransaction::begin();
    while t.phase != CopyPhase::Finished {
        let o = disk.perform(t.action());
        t = t.step(o, "/t", "/g");
    }
    assert!(t.failure.is_none());
    assert!(disk.target && disk.indexed && disk.marker.is_none());
}

#[test]
fn a_failed_copy_leaves_nothing_behind() {
    for n in 1..8 {
        let mut disk = fresh();
        let mut t = CopyTransaction::begin();
        let mut k = 0;
        while t.phase != CopyPhase::Finished {
            let o = if k == n {
                CopyOutcome::Failed(failure("disk full"))
            } else {
                disk.perform(t.action())
            };
            t = t.step(o, "/t", "/g");
            k += 1;
        }
        let e = t.failure.unwrap();
        assert_eq!(e.kind, ErrorKind::System(28));
        assert_eq!(e.message, "session copy failed and was rolled back: disk full");
        assert!(!disk.target && !disk.indexed && disk.marker.is_none());
    }
}

#[test]
fn a_crash_of_a_copy_recovers_to_all_or_nothing() {
    for stop in 0..10 {
        let mut disk = fresh();
        let mut t = CopyTransaction::begin();
        for _ in 0..stop {
            let o = disk.perform(t.action());
            t = t.step(o, "/t", "/g");
        }
        disk.recover();
        assert_eq!(disk.target, disk.indexed);
        assert!(disk.marker.is_none());
        let before = (disk.target, disk.indexed);
        disk.recover();
        assert_eq!((disk.target, disk.indexed), before);
    }
}

#[test]
fn troubles_of_a_rollback_are_told() {
    let mut t = CopyTransaction::begin();
    t = t.step(CopyOutcome::Done, "/t", "/g");
    t = t.step(CopyOutcome::Failed(failure("one")), "/t", "/g");
    assert_eq!(t.phase, CopyPhase::HideIndex);
    t = t.step(CopyOutcome::Done, "/t", "/g");
    t = t.step(CopyOutcome::Failed(failure("two")), "/t", "/g");
    t = t.step(CopyOutcome::Done, "/t", "/g");
    t = t.step(CopyOutcome::Failed(failure("three")), "/t", "/g");
    t = t.step(CopyOutcome::Done, "/t", "/g");
    assert_eq!(
        t.failure.unwrap().message,
        "session copy failed (one); rollback failed (session copy rollback incomplete: remove /t: two; sync cleanup /g: three); recovery required"
    );
    let r = CopyRecovery::recover_session_copy_journal(None);
    assert_eq!(
        r.failure.unwrap().message,
        "invalid session copy journal marker extension"
    );
    let t = CopyTransaction::begin().step(CopyOutcome::Failed(failure("one")), "/t", "/g");
    assert_eq!(t.phase, CopyPhase::Finished);
    assert_eq!(t.failure.unwrap().message, "one");
}

fn entry(name: &str, is_file: bool) -> DirEntry {
    DirEntry {
        name: name.to_string(),
        is_file,
    }
}

#[test]
fn a_copy_is_complete_before_it_is_renamed() {
    let entries = vec![entry("x.png", true), entry("sub", false), entry("y.gif", true)];
    assert!(directory_has_regular_files(&entries));
    assert!(!directory_has_regular_files(&vec![entry("sub", false)]));
    let (steps, has_attachments) = write_copied_session(&entries);
    assert!(has_attachments);
    assert_eq!(
        steps,
        vec![
            CopyWriteStep::CreateStaging,
            CopyWriteStep::CreateChildren,
            CopyWriteStep::CreateAttachments,
            CopyWriteStep::CopyAttachment("x.png".to_string()),
            CopyWriteStep::CopyAttachment("y.gif".to_string()),
            CopyWriteStep::SyncAttachments,
            CopyWriteStep::WriteSidecar,
            CopyWriteStep::WriteSession,
            CopyWriteStep::SyncStaging,
            CopyWriteStep::RenameToTarget,
            CopyWriteStep::SyncStagingParent,
            CopyWriteStep::SyncTargetParent,
        ]
    );
    let (steps, has_attachments) = write_copied_session(&vec![]);
    assert_eq!(steps.len(), 10);
    assert!(!has_attachments);
}

#[test]
fn a_copy_sweep_visits_every_journal() {
    let listing = vec![entry("b.committed", true), entry("a.json", true), entry("c.tmp", true)];
    assert_eq!(session_copy_journal_paths(&listing), vec!["a.json", "b.committed"]);
    let mut s = CopySweep::recover_all_session_copy_transactions_locked(Ok(listing));
    let mut recovered = vec![];
    while s.step != CopySweepStep::Finished {
        if s.step == CopySweepStep::Recover {
            recovered.push(s.names[s.next].clone());
        }
        s = s.step(Ok(()));
    }
    assert_eq!(recovered, vec!["a.json", "b.committed"]);
    assert!(s.failure.is_none());
    let s = CopySweep::recover_all_session_copy_transactions_locked(Ok(vec![entry("a.json", true)]))
        .step(Err(failure("x")));
    assert_eq!(s.step, CopySweepStep::Finished);
    assert_eq!(s.failure.unwrap().message, "x");
}
