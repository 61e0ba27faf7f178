use bamboo_storage::error::{ErrorKind, StorageError};
use bamboo_storage::locked_store::{
    activation_audit_floor, LockedSessionStore, PermissionAudit, PermissionSeed,
};
use bamboo_storage::metrics::SaveKind;
use bamboo_storage::publishing::{PublishRule, PublishStep, PublishingSave};
use bamboo_storage::session::{
    AgentRuntimeState, Message, ModelContextState, Role, Session, SessionPermissionMode,
    SessionRuntimeMetadata,
};
use bamboo_storage::session_merge::{
    adopt_durable_model_context_state, adopt_durable_task_control_plane,
    adopt_fresher_disk_permission_posture, adopt_fresher_durable_model_context_state,
    apply_authoritative_metadata, ensure_model_context_checkpoint_is_current,
    is_task_control_plane_save_conflict, merge_authoritative_metadata_into_stale,
    merge_save_session, posture_question, task_list_snapshot_matches, unconditional_task_patch_would_regress,
    write_audit, AuditEntry, InboxOutcome,
};
use bamboo_storage::task_journal::reject_regressing_runtime_task;
use bamboo_storage::time::Timestamp;

fn at(secs: i64) -> Timestamp {
    Timestamp { secs, nanos: 0 }
}

fn fault(message: &str) -> StorageError {
    StorageError::new(ErrorKind::Other, message.to_string())
}

fn root() -> Session {
    Session::new_root("r", "model", "Title", at(100))
}

fn message(text: &str) -> Message {
    Message {
        role: Role::User,
        content_parts: None,
        image_ocr: None,
        compression_level: 0,
        system_resume: false,
        document: text.to_string(),
    }
}

fn ledger(revision: u64, text: &str) -> Option<ModelContextState> {
    Some(ModelContextState {
        state_revision: revision,
        document: text.to_string(),
    })
}

fn audit(key: &str, value: Option<&str>) -> AuditEntry {
    AuditEntry {
        key: key.to_string(),
        value: value.map(|v| v.to_string()),
    }
}

fn inbox_of(s: &Session) -> InboxOutcome {
    let t = s.duplicate();
    InboxOutcome {
        messages: t.messages,
        runtime_metadata: t.runtime_metadata,
    }
}

#[test]
fn a_save_conflict_is_told_from_other_errors() {
    let mut durable = root();
    durable.set_tasks(Some("l".to_string()), "2".to_string());
    let e = reject_regressing_runtime_task(&root(), &Ok(Some(durable))).unwrap_err();
    assert!(is_task_control_plane_save_conflict(&e));
    let other = StorageError::new(ErrorKind::WouldBlock, "busy".to_string());
    assert!(!is_task_control_plane_save_conflict(&other));
    let other = StorageError::new(ErrorKind::Other, e.message.clone());
    assert!(!is_task_control_plane_save_conflict(&other));
}

#[test]
fn adopting_tasks_changes_only_tasks() {
    let mut mine = root();
    mine.title = "mine".to_string();
    mine.set_tasks(Some("mine".to_string()), "1".to_string());
    let mut durable = root();
    durable.set_tasks(Some("theirs".to_string()), "9".to_string());
    adopt_durable_task_control_plane(&mut mine, &durable);
    assert_eq!(mine.title, "mine");
    assert!(task_list_snapshot_matches(&mine, "theirs"));
    assert!(!task_list_snapshot_matches(&mine, "mine"));
    assert_eq!(mine.task_list_version_meta(), Some("9".to_string()));
    adopt_durable_task_control_plane(&mut mine, &root());
    assert_eq!(mine.task_list, None);
    assert_eq!(mine.task_list_version_meta(), None);
}

#[test]
fn a_patch_never_takes_tasks_back() {
    let mut durable = root();
    durable.set_tasks(Some("l".to_string()), "5".to_string());
    assert!(!unconditional_task_patch_would_regress(&durable, "m", "6"));
    assert!(!unconditional_task_patch_would_regress(&durable, "l", "5"));
    assert!(unconditional_task_patch_would_regress(&durable, "m", "5"));
    assert!(unconditional_task_patch_would_regress(&durable, "m", "4"));
    assert!(unconditional_task_patch_would_regress(&durable, "m", "x"));
    assert!(!unconditional_task_patch_would_regress(&root(), "m", "1"));
    let mut odd = root();
    odd.set_tasks(Some("l".to_string()), "odd".to_string());
    assert!(!unconditional_task_patch_would_regress(&odd, "l", "odd"));
    assert!(unconditional_task_patch_would_regress(&odd, "l", "6"));
}

#[test]
fn the_newer_metadata_edit_is_kept() {
    let mut latest = root();
    latest.title = "latest".to_string();
    latest.title_version = 4;
    latest.pinned = true;
    latest.metadata_version = 5;
    latest.metadata.insert("gold_config".to_string(), "g".to_string());
    let mut stale = root();
    stale.title = "stale".to_string();
    stale.metadata_version = 2;
    stale.metadata.insert("own".to_string(), "o".to_string());
    let mut merged = stale.duplicate();
    apply_authoritative_metadata(&mut merged, &latest);
    assert_eq!(merged.title, "latest");
    assert!(merged.pinned);
    assert_eq!(merged.metadata.get("gold_config"), Some(&"g".to_string()));
    assert_eq!(merged.metadata.get("own"), Some(&"o".to_string()));
    let once = merged.duplicate();
    apply_authoritative_metadata(&mut merged, &latest);
    assert!(merged.same(&once));
}

#[test]
fn the_ledger_never_goes_back() {
    let mut mine = root();
    mine.model_context_state = ledger(3, "mine");
    let mut latest = root();
    latest.model_context_state = ledger(5, "latest");
    let mut s = mine.duplicate();
    adopt_fresher_durable_model_context_state(&mut s, &latest);
    assert_eq!(s.model_context_state.as_ref().unwrap().state_revision, 5);
    let mut s = latest.duplicate();
    adopt_fresher_durable_model_context_state(&mut s, &mine);
    assert_eq!(s.model_context_state.as_ref().unwrap().state_revision, 5);
    let mut s = latest.duplicate();
    adopt_durable_model_context_state(&mut s, &mine);
    assert_eq!(s.model_context_state.as_ref().unwrap().state_revision, 3);
    let e = ensure_model_context_checkpoint_is_current(&mine, &latest).unwrap_err();
    assert_eq!(e.message, "stale or conflicting model-context ledger checkpoint");
    assert!(ensure_model_context_checkpoint_is_current(&latest, &mine).is_ok());
    let mut other = latest.duplicate();
    other.model_context_state = ledger(5, "other");
    assert!(ensure_model_context_checkpoint_is_current(&other, &latest).is_err());
    assert!(ensure_model_context_checkpoint_is_current(&latest, &latest).is_ok());
}

#[test]
fn audit_entries_are_put_and_removed() {
    let mut s = root();
    s.metadata.insert("a".to_string(), "1".to_string());
    write_audit(&mut s, &vec![audit("a", None), audit("b", Some("2"))]);
    assert!(!s.metadata.contains_key("a"));
    assert_eq!(s.metadata.get("b"), Some(&"2".to_string()));
}

#[test]
fn the_durable_posture_moves_as_a_whole() {
    let mut mine = root();
    mine.agent_runtime_state = Some(AgentRuntimeState::fresh(SessionPermissionMode::Default));
    let mut disk = root();
    disk.agent_runtime_state = Some(AgentRuntimeState::fresh(SessionPermissionMode::Bypass));
    assert_eq!(
        posture_question(&mine, &disk),
        Some((SessionPermissionMode::Default, SessionPermissionMode::Bypass))
    );
    assert_eq!(posture_question(&mine, &root()), None);
    let mut s = mine.duplicate();
    adopt_fresher_disk_permission_posture(&mut s, &disk, &None);
    assert!(s.same(&mine));
    let mut s = mine.duplicate();
    adopt_fresher_disk_permission_posture(
        &mut s,
        &disk,
        &Some(vec![audit("permission.audit_revision", Some("3"))]),
    );
    assert_eq!(s.effective_permission_mode(), SessionPermissionMode::Bypass);
    assert_eq!(
        s.metadata.get("permission.audit_revision"),
        Some(&"3".to_string())
    );
}

#[test]
fn a_merge_takes_inbox_ledger_and_posture_with_it() {
    let mut latest = root();
    latest.metadata_version = 2;
    latest.title = "latest".to_string();
    latest.model_context_state = ledger(2, "l");
    let mut s = root();
    s.messages.push(message("mine"));
    let mut inbox = inbox_of(&s);
    inbox.messages.push(message("delivered"));
    merge_authoritative_metadata_into_stale(&mut s, &latest, inbox, &None);
    assert_eq!(s.title, "latest");
    assert_eq!(s.messages.len(), 2);
    assert_eq!(s.model_context_state.as_ref().unwrap().state_revision, 2);
    let alone = LockedSessionStore::save_runtime_only_and_publish(&root(), Ok(None), &None);
    assert!(alone.save.session.same(&root()));
    let over =
        LockedSessionStore::save_runtime_only_and_publish(&root(), Ok(Some(latest.duplicate())), &None);
    assert_eq!(over.kind, SaveKind::Runtime);
    assert_eq!(over.save.session.title, "latest");
    let mut ahead = root();
    ahead.model_context_state = ledger(9, "ahead");
    let over =
        LockedSessionStore::save_runtime_only_and_publish(&ahead, Ok(Some(latest.duplicate())), &None);
    let kept = over.save.session.model_context_state.as_ref().unwrap();
    assert_eq!(kept.state_revision, 2);
}

#[test]
fn a_save_of_the_control_plane_publishes_once_whether_or_not_it_succeeds() {
    let mut s = root();
    s.title = "mine".to_string();
    let lost = LockedSessionStore::save_runtime_only_and_publish(&s, Err(fault("load")), &None);
    assert_eq!(lost.step(), PublishStep::Finished);
    let (kept, answer) = lost.finish();
    assert!(kept.same(&s));
    assert_eq!(answer.unwrap_err().message, "load");

    let run = LockedSessionStore::save_runtime_only_and_publish(&s, Ok(None), &None);
    assert_eq!(run.step(), PublishStep::Save);
    let run = run.on_saved(Err(fault("disk")));
    assert_eq!(run.step(), PublishStep::Publish);
    let (published, committed) = run.publication();
    assert!(published.same(&s));
    assert!(!committed);
    let run = run.on_published();
    assert_eq!(run.step(), PublishStep::Finished);
    assert_eq!(run.finish().1.unwrap_err().message, "disk");

    let run = LockedSessionStore::save_runtime_only_and_publish(&s, Ok(None), &None);
    let run = run.on_saved(Ok(()));
    assert_eq!(run.step(), PublishStep::Publish);
    assert!(run.publication().1);
    let run = run.on_published();
    assert_eq!(run.step(), PublishStep::Finished);
    assert!(run.finish().1.is_ok());
}

#[test]
fn a_conflict_is_rebased_before_it_is_published() {
    let mut durable = root();
    durable.set_tasks(Some("theirs".to_string()), "7".to_string());
    let conflict = reject_regressing_runtime_task(&root(), &Ok(Some(durable.duplicate()))).unwrap_err();
    let run = LockedSessionStore::merge_save_runtime(&root(), Ok(None), inbox_of(&root()), &None);
    assert_eq!(run.kind, SaveKind::Full);
    let run = run.on_saved(Err(conflict));
    assert_eq!(run.step(), PublishStep::Reload);
    let run = run.on_reloaded(Ok(Some(durable)));
    assert_eq!(run.step(), PublishStep::Save);
    let run = run.on_saved(Ok(()));
    let (published, committed) = run.publication();
    assert!(task_list_snapshot_matches(published, "theirs"));
    assert!(committed);
}

#[test]
fn a_commit_publishes_after_a_success_only() {
    let run = PublishingSave::begin(SaveKind::Full, PublishRule::Committed, root(), Ok(()));
    let run = run.on_saved(Err(fault("disk")));
    assert_eq!(run.step(), PublishStep::Finished);
    let run = PublishingSave::begin(SaveKind::Full, PublishRule::Committed, root(), Ok(()));
    let run = run.on_saved(Ok(()));
    assert_eq!(run.step(), PublishStep::Publish);
    let refused = PublishingSave::begin(
        SaveKind::Full,
        PublishRule::Committed,
        root(),
        Err(fault("refused")),
    );
    assert_eq!(refused.step(), PublishStep::Finished);
}

#[test]
fn a_metadata_commit_is_a_plain_save() {
    let mut edit = root();
    edit.title = "Committed".to_string();
    edit.metadata_version = 1;
    edit.title_version = 2;
    edit.pinned = true;
    edit.messages.push(message("mine"));
    edit.model_context_state = ledger(3, "mine");
    edit.set_tasks(Some("l".to_string()), "4".to_string());
    edit.metadata.insert("gold_config".to_string(), "g".to_string());
    let out = LockedSessionStore::commit_metadata(&edit);
    assert!(out.same(&edit));
    assert_eq!(out.title, "Committed");
    assert_eq!(out.metadata_version, 1);
    assert_eq!(out.title_version, 2);
    assert_eq!(out.model_context_state.as_ref().unwrap().state_revision, 3);
    assert_eq!(out.task_list_version_meta(), Some("4".to_string()));
}

#[test]
fn a_checkpoint_needs_a_current_ledger() {
    let mut latest = root();
    latest.model_context_state = ledger(5, "l");
    let mut s = root();
    s.model_context_state = ledger(4, "s");
    let run = LockedSessionStore::checkpoint_runtime_session_and_publish(
        &s,
        Ok(Some(latest.duplicate())),
        inbox_of(&s),
        &None,
    );
    assert_eq!(run.step(), PublishStep::Finished);
    let (kept, answer) = run.finish();
    assert!(kept.same(&s));
    assert_eq!(
        answer.unwrap_err().message,
        "stale or conflicting model-context ledger checkpoint"
    );
    s.model_context_state = ledger(6, "s");
    let run = LockedSessionStore::checkpoint_runtime_session_and_publish(
        &s,
        Ok(Some(latest)),
        inbox_of(&s),
        &None,
    );
    assert_eq!(run.step(), PublishStep::Save);
    let kept = run.save.session.model_context_state.as_ref().unwrap();
    assert_eq!(kept.state_revision, 6);
    let run = LockedSessionStore::checkpoint_runtime_session_and_publish(
        &s,
        Err(fault("load")),
        inbox_of(&s),
        &None,
    );
    assert_eq!(run.step(), PublishStep::Finished);
    assert_eq!(run.finish().1.unwrap_err().message, "load");
}

fn posture(resolution: &str, revision: u64, when: Option<&str>) -> PermissionAudit {
    PermissionAudit {
        resolution: resolution.to_string(),
        requested: SessionPermissionMode::Auto,
        audit_revision: revision,
        transitioned_at: when.map(|w| w.to_string()),
    }
}

fn seed(resolution: &str) -> PermissionSeed {
    PermissionSeed {
        resolution: resolution.to_string(),
        requested: SessionPermissionMode::Auto,
        consistent: true,
    }
}

#[test]
fn an_activation_moves_the_audit_on() {
    assert_eq!(activation_audit_floor(&posture("a", 3, None), &None), 3);
    assert_eq!(
        activation_audit_floor(&posture("a", 3, None), &Some(posture("a", 9, None))),
        9
    );
    let mut s = root();
    let inbox = inbox_of(&s);
    let e = LockedSessionStore::seed_runtime_activation_and_publish(
        &mut s,
        &Ok(Some(root())),
        inbox,
        None,
        &None,
        Ok(1),
    )
    .err()
    .unwrap();
    assert_eq!(
        e.message,
        "activation seed requires a complete permission audit record"
    );
    let inbox = inbox_of(&s);
    let e = LockedSessionStore::seed_runtime_activation_and_publish(
        &mut s,
        &Err(fault("load")),
        inbox,
        Some(posture("a", 3, None)),
        &None,
        Ok(1),
    )
    .err()
    .unwrap();
    assert_eq!(e.message, "load");
    assert!(s.same(&root()));
    let mut latest = root();
    latest.title = "latest".to_string();
    latest.model_context_state = ledger(8, "durable");
    s.model_context_state = ledger(2, "mine");
    let inbox = inbox_of(&s);
    let a = LockedSessionStore::seed_runtime_activation_and_publish(
        &mut s,
        &Ok(Some(latest)),
        inbox,
        Some(posture("a", 3, Some("new"))),
        &Some(posture("a", 4, Some("old"))),
        Ok(5),
    )
    .ok()
    .unwrap();
    assert_eq!(a.audit_revision, 5);
    assert_eq!(a.transitioned_at, Some("old".to_string()));
    assert_eq!(s.title, "latest");
    assert_eq!(s.model_context_state.as_ref().unwrap().state_revision, 2);
    assert_eq!(s.effective_permission_mode(), SessionPermissionMode::Auto);
    let run = LockedSessionStore::activation_save(
        s.duplicate(),
        Ok(vec![audit("permission.audit_revision", Some("5"))]),
    );
    assert_eq!(run.step(), PublishStep::Save);
    assert_eq!(
        run.save.session.metadata.get("permission.audit_revision"),
        Some(&"5".to_string())
    );
    let run = LockedSessionStore::activation_save(s, Err(fault("exhausted")));
    assert_eq!(run.step(), PublishStep::Finished);
    assert_eq!(run.finish().1.unwrap_err().message, "exhausted");
}

#[test]
fn a_changed_posture_is_stamped() {
    let s = root();
    let t = LockedSessionStore::permission_transition(&s, &None, &seed("a"), at(1_700_000_000));
    assert_eq!(t.transitioned_at, Some("2023-11-14T22:13:20+00:00".to_string()));
    assert!(t.mode_changed);
    let t = LockedSessionStore::permission_transition(
        &s,
        &Some(posture("a", 1, Some("before"))),
        &seed("a"),
        at(1_700_000_000),
    );
    assert_eq!(t.transitioned_at, None);
    let t = LockedSessionStore::permission_transition(
        &s,
        &None,
        &seed("b"),
        Timestamp {
            secs: 1_700_000_000,
            nanos: 500_000_000,
        },
    );
    assert_eq!(
        t.transitioned_at,
        Some("2023-11-14T22:13:20.500+00:00".to_string())
    );
}

#[test]
fn a_reseeded_posture_is_recorded() {
    let mut s = root();
    let t = LockedSessionStore::permission_transition(&s, &None, &seed("a"), at(0));
    let v = s.metadata_version;
    assert!(LockedSessionStore::update_authoritative_permission_posture_and_publish(
        &mut s,
        &seed("a"),
        &t,
        Ok(vec![audit("permission.audit_revision", Some("1"))])
    )
    .is_ok());
    assert_eq!(s.effective_permission_mode(), SessionPermissionMode::Auto);
    assert_eq!(s.metadata_version, v + 1);
    let e = LockedSessionStore::check_permission_posture_activation(&s, Some(2), Some(1), &seed("a"))
        .unwrap_err();
    assert_eq!(
        e.message,
        "stale permission posture activation: durable audit changed after dispatch"
    );
    let mut other = seed("a");
    other.consistent = false;
    let e = LockedSessionStore::check_permission_posture_activation(&s, Some(1), Some(1), &other)
        .unwrap_err();
    assert_eq!(e.message, "stale or inconsistent permission posture activation");
    assert!(LockedSessionStore::record_permission_posture_activation_and_publish(
        &mut s,
        Some(1),
        Some(1),
        &seed("a"),
        Ok(vec![audit("permission.audit_revision", Some("2"))])
    )
    .is_ok());
    assert_eq!(
        s.metadata.get("permission.audit_revision"),
        Some(&"2".to_string())
    );
}

#[test]
fn pending_messages_are_cleared_only_as_seen() {
    let mut s = root();
    let mut meta = SessionRuntimeMetadata::unset();
    meta.pending_injected_messages = Some(vec!["a".to_string()]);
    s.runtime_metadata = Some(meta);
    let seen = vec!["a".to_string()];
    let cleared = LockedSessionStore::clear_legacy_pending_messages_and_publish(
        s.duplicate(),
        &Some(seen.clone()),
        &seen,
    )
    .unwrap();
    assert!(cleared.runtime_metadata.is_none());
    let kept = LockedSessionStore::clear_legacy_pending_messages_and_publish(
        s,
        &Some(vec!["b".to_string()]),
        &seen,
    );
    assert!(kept.is_none());
}

#[test]
fn a_runtime_merge_starts_from_what_is_durable() {
    let mut latest = root();
    latest.title = "latest".to_string();
    latest.metadata_version = 3;
    let run = LockedSessionStore::merge_save_runtime_inner_and_publish(
        &root(),
        Ok(Some(latest)),
        inbox_of(&root()),
        &None,
        false,
    );
    assert_eq!(run.save.session.title, "latest");
    let alone = LockedSessionStore::merge_save_runtime_inner_and_publish(
        &root(),
        Ok(None),
        inbox_of(&root()),
        &None,
        true,
    );
    assert!(alone.save.session.same(&root()));
    let lost = LockedSessionStore::merge_save_runtime_inner_and_publish(
        &root(),
        Err(fault("load")),
        inbox_of(&root()),
        &None,
        true,
    );
    assert_eq!(lost.step(), PublishStep::Finished);
    assert_eq!(lost.finish().1.unwrap_err().message, "load");
}

#[test]
fn a_posture_that_the_caller_decides_stays() {
    let mut latest = root();
    latest.agent_runtime_state = Some(AgentRuntimeState::fresh(SessionPermissionMode::Bypass));
    let mine = root();
    let disk_audit = Some(vec![audit("permission.audit_revision", Some("9"))]);
    let run = LockedSessionStore::merge_save_runtime(
        &mine,
        Ok(Some(latest.duplicate())),
        inbox_of(&mine),
        &disk_audit,
    );
    assert_eq!(
        run.save.session.effective_permission_mode(),
        SessionPermissionMode::Bypass
    );
    let run = LockedSessionStore::save_runtime_authoritative_flags(
        &mine,
        Ok(Some(latest.duplicate())),
        inbox_of(&mine),
    );
    assert_eq!(
        run.save.session.effective_permission_mode(),
        SessionPermissionMode::Default
    );
    let mut s = mine.duplicate();
    let inbox = inbox_of(&s);
    merge_save_session(&mut s, &Some(latest), inbox, &disk_audit);
    assert_eq!(s.effective_permission_mode(), SessionPermissionMode::Bypass);
    let mut s = mine.duplicate();
    let inbox = inbox_of(&s);
    merge_save_session(&mut s, &None, inbox, &disk_audit);
    assert!(s.same(&mine));
}
