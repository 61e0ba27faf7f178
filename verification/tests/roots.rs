use bamboo_storage::error::{ErrorKind, StorageError};
use bamboo_storage::index::{index_entry, SessionsIndex};
use bamboo_storage::probe::{Probe, SessionFile};
use bamboo_storage::root_context::{
    empty_creation_layout, validate_root_context_for_full_save, validate_root_context_for_save,
    validate_root_context_for_write, LayoutEntry, RootContext,
};
use bamboo_storage::root_fence::{
    suppress_revoked, suppress_revoked_authority, validate_root_for_write, RootFence,
};
use bamboo_storage::root_lifetime::{
    canonical_root_birth, check_recreation, finds_root_to_delete, fresh_root_birth,
    reconcile_root_revocations, recreate_ordinary_root, recreated_root,
    remove_revoked_root_directory, revoke_root_lifetime, revoked_roots, root_birth_is_live,
    root_directory_is_revoked, root_revocation, session_lifetime_is_live,
    validate_root_lifetime_for_write, BirthEvidence, BirthFile, ParentEvidence, RecreationStart,
    RevocationEntry, RevocationEvidence, RevocationFile, RootBirth, RootRevocation,
};
use bamboo_storage::root_publication::{
    begin_bootstrap, bootstrap_default_supervisor, existing_supervisor, supervisor_session,
    BootstrapStart, LegacyOwner, PublishStep, RootPublication,
};
use bamboo_storage::session::{
    ManagedLink, Session, SessionAuthorityIdentity, SessionKind, SessionRuntimeMetadata,
};
use bamboo_storage::supervisor_management::{
    accept_management, denied, empty_state, locked_target, management_link, management_mutate,
    management_scope, management_session_locks, next_revision, reference_is_valid,
    target_id_is_valid, target_project, ManagementPlan, ManagementPolicy,
    SupervisorManagementMutation, SupervisorManagementRequest, SupervisorReference,
};
use bamboo_storage::time::Timestamp;

const SUPERVISOR: &str = "supervisor-default";

fn at(secs: i64) -> Timestamp {
    Timestamp { secs, nanos: 0 }
}

fn failure(message: &str) -> StorageError {
    StorageError::new(ErrorKind::System(5), message.to_string())
}

fn root(id: &str) -> Session {
    Session::new_root(id, "model", "Title", at(100))
}

fn root_in(id: &str, project: &str) -> Session {
    let mut s = root(id);
    let mut meta = SessionRuntimeMetadata::unset();
    meta.project_id = Some(project.to_string());
    s.runtime_metadata = Some(meta);
    s
}

fn child(id: &str, root_id: &str) -> Session {
    let mut s = root(id);
    s.kind = SessionKind::Child;
    s.root_session_id = root_id.to_string();
    s.parent_session_id = Some(root_id.to_string());
    s.spawn_depth = 1;
    s
}

fn policy() -> ManagementPolicy {
    ManagementPolicy {
        supervisor_id: SUPERVISOR.to_string(),
        max_projects: 2,
        max_links: 2,
        schema_version: 1,
    }
}

fn reference() -> SupervisorReference {
    SupervisorReference {
        session_id: SUPERVISOR.to_string(),
        incarnation_id: 7,
    }
}

fn manager() -> Session {
    supervisor_session(SUPERVISOR, "model", 7, at(50))
}

fn request(revision: u64, mutation: SupervisorManagementMutation) -> SupervisorManagementRequest {
    SupervisorManagementRequest {
        supervisor: reference(),
        expected_state_revision: revision,
        mutation,
    }
}

fn configure(s: &Session, revision: u64, projects: &[&str]) -> Result<ManagementPlan, StorageError> {
    management_mutate(
        &request(
            revision,
            SupervisorManagementMutation::ConfigureProjectScope {
                allowed_projects: projects.iter().map(|p| p.to_string()).collect(),
            },
        ),
        &policy(),
        &None,
        Ok(Some(s.duplicate())),
        Ok(None),
        &None,
    )
}

fn attach(s: &Session, revision: u64, target: &Session, project: &str) -> Result<ManagementPlan, StorageError> {
    management_mutate(
        &request(
            revision,
            SupervisorManagementMutation::Attach {
                target_session_id: target.id.clone(),
            },
        ),
        &policy(),
        &None,
        Ok(Some(s.duplicate())),
        Ok(Some(target.duplicate())),
        &Some(project.to_string()),
    )
}

fn detach(s: &Session, revision: u64, target: &str) -> Result<ManagementPlan, StorageError> {
    management_mutate(
        &request(
            revision,
            SupervisorManagementMutation::Detach {
                target_session_id: target.to_string(),
            },
        ),
        &policy(),
        &None,
        Ok(Some(s.duplicate())),
        Err(failure("must not be asked")),
        &None,
    )
}

fn link_of(s: &Session, id: &str) -> Option<ManagedLink> {
    s.supervisor_management
        .as_ref()
        .and_then(|m| m.links.get(id).map(|l| l.duplicate()))
}

#[test]
fn management_attaches_and_detaches_roots_in_scope() {
    let p = configure(&manager(), 0, &["p", "q"]).ok().unwrap();
    assert_eq!(p.receipt.supervisor.session_id, SUPERVISOR);
    assert_eq!(p.receipt.supervisor.incarnation_id, 7);
    assert_eq!(p.receipt.state_revision, 1);
    assert!(p.receipt.changed);
    let s = p.sidecar.unwrap();
    assert_eq!(
        s.supervisor_management.as_ref().unwrap().allowed_projects,
        vec!["p", "q"]
    );
    let t = root_in("r", "p");
    let p = attach(&s, 1, &t, "p").ok().unwrap();
    assert_eq!(p.receipt.state_revision, 2);
    assert_eq!(p.receipt.link_revision, Some(1));
    let s = p.sidecar.unwrap();
    let link = link_of(&s, "r").unwrap();
    assert!(link.enabled);
    assert_eq!(link.target_project_id, "p");
    let again = attach(&s, 2, &t, "p").ok().unwrap();
    assert!(!again.receipt.changed);
    assert!(again.sidecar.is_none());
    assert_eq!(again.receipt.state_revision, 2);
    let seen = management_link(
        &reference(),
        "r",
        &policy(),
        &None,
        Ok(Some(s.duplicate())),
        Ok(Some(t.duplicate())),
        &Some("p".to_string()),
    )
    .ok()
    .unwrap();
    assert!(seen.authorized);
    assert_eq!(seen.supervisor.incarnation_id, 7);
    let p = detach(&s, 2, "r").ok().unwrap();
    let s = p.sidecar.unwrap();
    assert_eq!(p.receipt.state_revision, 3);
    assert_eq!(p.receipt.link_revision, Some(2));
    assert!(!link_of(&s, "r").unwrap().enabled);
    let gone = detach(&s, 3, "unknown").ok().unwrap();
    assert!(!gone.receipt.changed);
    let scope = management_scope(&reference(), &policy(), Ok(Some(s))).ok().unwrap();
    assert_eq!(scope.supervisor.session_id, SUPERVISOR);
    assert_eq!(scope.state_revision, 3);
    assert_eq!(scope.allowed_projects, vec!["p", "q"]);
}

#[test]
fn narrowing_the_scope_disables_links() {
    let s = configure(&manager(), 0, &["p"]).ok().unwrap().sidecar.unwrap();
    let s = attach(&s, 1, &root_in("r", "p"), "p").ok().unwrap().sidecar.unwrap();
    let s = configure(&s, 2, &[]).ok().unwrap().sidecar.unwrap();
    let link = link_of(&s, "r").unwrap();
    assert!(!link.enabled);
    assert_eq!(link.revision, 2);
    assert_eq!(s.supervisor_management.as_ref().unwrap().revision, 3);
}

#[test]
fn management_refuses_what_is_out_of_line() {
    let e = configure(&manager(), 4, &["p"]).err().unwrap();
    assert_eq!(
        e.message,
        "Supervisor management revision changed; reload scope before retrying"
    );
    assert!(configure(&manager(), 0, &["a", "b", "a"]).is_ok());
    let e = configure(&manager(), 0, &["a", "b", "c"]).err().unwrap();
    assert_eq!(e.kind, ErrorKind::InvalidInput);
    assert_eq!(e.message, "Supervisor Project scope capacity exceeded");
    let s = configure(&manager(), 0, &["p"]).ok().unwrap().sidecar.unwrap();
    let e = attach(&s, 1, &root_in("r", "q"), "q").err().unwrap();
    assert_eq!(e.kind, ErrorKind::PermissionDenied);
    assert_eq!(
        e.message,
        "target Project is outside configured Supervisor scope"
    );
    let e = attach(&s, 1, &child("c", "r"), "p").err().unwrap();
    assert_eq!(e.message, "a target must be an independent Ordinary Root");
    let s1 = attach(&s, 1, &root_in("r1", "p"), "p").ok().unwrap().sidecar.unwrap();
    let s2 = attach(&s1, 2, &root_in("r2", "p"), "p").ok().unwrap().sidecar.unwrap();
    let e = attach(&s2, 3, &root_in("r3", "p"), "p").err().unwrap();
    assert_eq!(e.message, "Supervisor link/tombstone capacity exceeded");
    let mut other = reference();
    other.session_id = "else".to_string();
    let e = reference_is_valid(&other, &policy()).unwrap_err();
    assert_eq!(e.message, "a canonical Supervisor reference is required");
    let e = target_id_is_valid(SUPERVISOR, &None, &policy()).unwrap_err();
    assert_eq!(e.message, "the Supervisor cannot manage itself");
    assert!(target_id_is_valid("r", &Some("bad shape".to_string()), &policy()).is_err());
    assert_eq!(
        target_project(&root("r"), &None).err().unwrap().message,
        "target has no Project"
    );
    assert_eq!(
        target_project(&root_in("r", "?"), &None).err().unwrap().message,
        "target has an invalid Project"
    );
    let e = management_scope(&reference(), &policy(), Ok(None)).err().unwrap();
    assert_eq!(e.message, "Supervisor does not exist");
    let elder = supervisor_session(SUPERVISOR, "model", 8, at(50));
    let e = management_scope(&reference(), &policy(), Ok(Some(elder))).err().unwrap();
    assert_eq!(
        e.message,
        "Supervisor incarnation does not match canonical authority"
    );
    assert_eq!(next_revision(4).unwrap(), 5);
    assert_eq!(
        next_revision(u64::MAX).unwrap_err().message,
        "Supervisor revision exhausted"
    );
    assert_eq!(denied("x").kind, ErrorKind::PermissionDenied);
}

#[test]
fn a_faulty_state_is_not_written() {
    let plan = configure(&manager(), 0, &["p"]).ok().unwrap();
    assert!(accept_management(plan, &Some("too big".to_string())).is_err());
    let plan = configure(&manager(), 0, &["p"]).ok().unwrap();
    assert!(accept_management(plan, &None).is_ok());
    let e = empty_state(7, 1);
    assert_eq!((e.revision, e.incarnation_id, e.schema_version), (0, 7, 1));
}

#[test]
fn management_locks_in_one_order() {
    assert_eq!(management_session_locks(&policy(), &None), vec![SUPERVISOR]);
    assert_eq!(
        management_session_locks(&policy(), &Some("a".to_string())),
        vec!["a", SUPERVISOR]
    );
    assert_eq!(
        management_session_locks(&policy(), &Some("z".to_string())),
        vec![SUPERVISOR, "z"]
    );
    let m = SupervisorManagementMutation::Attach {
        target_session_id: "r".to_string(),
    };
    assert_eq!(locked_target(&m), Some("r".to_string()));
    let m = SupervisorManagementMutation::ConfigureProjectScope {
        allowed_projects: vec![],
    };
    assert_eq!(locked_target(&m), None);
}

fn no_owner() -> LegacyOwner {
    LegacyOwner {
        runtime_missing: false,
        main_file: Probe::Missing,
        main: SessionFile::Missing,
    }
}

#[test]
fn bootstrap_never_replaces_an_owner() {
    match begin_bootstrap(Ok(Some(manager())), &no_owner(), "m", SUPERVISOR).ok().unwrap() {
        BootstrapStart::Existing { incarnation_id } => assert_eq!(incarnation_id, 7),
        BootstrapStart::Create => panic!("there is one"),
    }
    let e = begin_bootstrap(Ok(Some(root(SUPERVISOR))), &no_owner(), "m", SUPERVISOR)
        .err()
        .unwrap();
    assert_eq!(e.message, "default Supervisor ID is occupied by an Ordinary Session");
    let legacy = LegacyOwner {
        runtime_missing: true,
        main_file: Probe::File,
        main: SessionFile::Parsed(root(SUPERVISOR)),
    };
    let e = begin_bootstrap(Err(failure("x")), &legacy, "m", SUPERVISOR).err().unwrap();
    assert_eq!(
        e.message,
        "default Supervisor ID is occupied by a legacy Ordinary Session"
    );
    let e = begin_bootstrap(Err(failure("x")), &no_owner(), "m", SUPERVISOR).err().unwrap();
    assert_eq!(e.message, "x");
    let e = begin_bootstrap(Ok(None), &no_owner(), "  ", SUPERVISOR).err().unwrap();
    assert_eq!(e.message, "a model is required to bootstrap the default Supervisor");
    assert!(matches!(
        begin_bootstrap(Ok(None), &no_owner(), "m", SUPERVISOR),
        Ok(BootstrapStart::Create)
    ));
    let e = existing_supervisor(Ok(None)).err().unwrap();
    assert_eq!(e.message, "session_authority: published Supervisor disappeared");
}

#[test]
fn bootstrap_makes_a_fresh_supervisor() {
    let s = bootstrap_default_supervisor(SUPERVISOR, " model ", at(3));
    assert_eq!(s.id, SUPERVISOR);
    assert_eq!(s.model, "model");
    assert_eq!(s.title, "Supervisor");
    let first = match s.authority_identity {
        SessionAuthorityIdentity::Supervisor { incarnation_id } => incarnation_id,
        SessionAuthorityIdentity::Ordinary => panic!("a Supervisor was made"),
    };
    assert_ne!(first, 0);
    let t = bootstrap_default_supervisor(SUPERVISOR, "model", at(3));
    assert!(!t.same(&s));
}

#[test]
fn a_root_appears_complete() {
    let mut p = RootPublication::begin();
    let mut steps = vec![];
    while p.step != PublishStep::Finished {
        steps.push(p.step);
        p = p.step(Ok(()));
    }
    assert!(p.failure.is_none());
    let rename = steps.iter().position(|s| *s == PublishStep::Rename).unwrap();
    for s in [PublishStep::WriteSession, PublishStep::WriteSidecar, PublishStep::SyncStaging] {
        assert!(steps.iter().position(|t| *t == s).unwrap() < rename);
    }
    let mut p = RootPublication::begin().step(Ok(())).step(Err(failure("x")));
    assert_eq!(p.step, PublishStep::RemoveStaging);
    p = p.step(Ok(()));
    assert_eq!(p.step, PublishStep::Finished);
    assert_eq!(p.failure.unwrap().message, "x");
}

fn context(runtime: Option<Session>) -> RootContext {
    match runtime {
        Some(r) => RootContext {
            path: "/s/r".to_string(),
            directory: Probe::Directory,
            main_file: Probe::File,
            runtime_file: Probe::File,
            layout: Ok(vec![]),
            runtime: SessionFile::Parsed(r),
        },
        None => RootContext {
            path: "/s/r".to_string(),
            directory: Probe::Missing,
            main_file: Probe::Missing,
            runtime_file: Probe::Missing,
            layout: Ok(vec![]),
            runtime: SessionFile::Missing,
        },
    }
}

fn told(e: StorageError) -> String {
    assert!(e.authority_conflict);
    e.message
}

#[test]
fn writes_keep_the_context_of_a_root() {
    let mut durable = root_in("r", "p");
    durable.metadata_version = 3;
    let ctx = context(Some(durable.duplicate()));
    assert!(validate_root_context_for_save(&durable, &ctx).is_ok());
    assert!(validate_root_context_for_full_save(&durable, &ctx).is_ok());
    let mut older = durable.duplicate();
    older.metadata_version = 2;
    assert_eq!(
        told(validate_root_context_for_save(&older, &ctx).unwrap_err()),
        "Root context changed or unavailable: metadata revision regressed; reload before saving"
    );
    let mut moved = root_in("r", "q");
    moved.metadata_version = 3;
    assert_eq!(
        told(validate_root_context_for_save(&moved, &ctx).unwrap_err()),
        "Root context changed or unavailable: Project changes require the next metadata revision"
    );
    moved.metadata_version = 4;
    assert!(validate_root_context_for_save(&moved, &ctx).is_ok());
    let mut reborn = durable.duplicate();
    reborn.created_at = at(101);
    assert_eq!(
        told(validate_root_context_for_save(&reborn, &ctx).unwrap_err()),
        "Root context changed or unavailable: writer does not match the durable Root creation identity"
    );
    assert!(validate_root_context_for_write(&root("r"), true, &context(None)).is_ok());
}

#[test]
fn a_damaged_root_is_not_written_over() {
    let s = root("r");
    let mut ctx = context(Some(s.duplicate()));
    ctx.main_file = Probe::Missing;
    assert_eq!(
        told(validate_root_context_for_save(&s, &ctx).unwrap_err()),
        "Root context changed or unavailable: canonical main file is missing"
    );
    let mut ctx = context(Some(s.duplicate()));
    ctx.runtime_file = Probe::Missing;
    assert_eq!(
        told(validate_root_context_for_save(&s, &ctx).unwrap_err()),
        "Root context changed or unavailable: canonical runtime file is missing"
    );
    let mut ctx = context(Some(s.duplicate()));
    ctx.runtime = SessionFile::Corrupt("eof".to_string());
    assert_eq!(
        told(validate_root_context_for_save(&s, &ctx).unwrap_err()),
        "Root context changed or unavailable: invalid canonical runtime: eof"
    );
    let mut ctx = context(Some(s.duplicate()));
    ctx.directory = Probe::File;
    assert_eq!(
        told(validate_root_context_for_save(&s, &ctx).unwrap_err()),
        "Root context changed or unavailable: canonical Root directory is not a real directory"
    );
}

fn layout(name: &str, directory: bool, empty: bool) -> LayoutEntry {
    LayoutEntry::Entry {
        name: Some(name.to_string()),
        directory: Ok(directory),
        empty: Ok(empty),
    }
}

#[test]
fn an_empty_creation_layout_holds_empty_directories_alone() {
    assert!(empty_creation_layout(&vec![]).unwrap());
    assert!(empty_creation_layout(&vec![layout("children", true, true), layout("attachments", true, true)]).unwrap());
    assert!(!empty_creation_layout(&vec![layout("other", true, true)]).unwrap());
    assert!(!empty_creation_layout(&vec![layout("children", false, true)]).unwrap());
    assert!(!empty_creation_layout(&vec![layout("children", true, false)]).unwrap());
    assert!(empty_creation_layout(&vec![LayoutEntry::Unreadable(failure("x"))]).is_err());
}

fn revoked(through: i64) -> RevocationEvidence {
    RevocationEvidence {
        directory: Probe::Directory,
        file: Probe::File,
        content: RevocationFile::Parsed(RootRevocation {
            version: 1,
            session_id: "r".to_string(),
            revoked_through: at(through),
        }),
    }
}

#[test]
fn a_revocation_names_its_root() {
    assert_eq!(root_revocation("r", &revoked(9)).unwrap(), Some(at(9)));
    let e = root_revocation("q", &revoked(9)).unwrap_err();
    assert_eq!(e.message, "Root revocation identity or version mismatch");
    let mut none = revoked(9);
    none.file = Probe::Missing;
    assert_eq!(root_revocation("r", &none).unwrap(), None);
    let mut bad = revoked(9);
    bad.content = RevocationFile::Corrupt("eof".to_string());
    assert_eq!(
        root_revocation("r", &bad).unwrap_err().message,
        "invalid Root revocation: eof"
    );
    let mut odd = revoked(9);
    odd.directory = Probe::File;
    assert_eq!(
        root_revocation("r", &odd).unwrap_err().message,
        "Root lifetime directory is not a real directory"
    );
}

fn birth_file(id: &str, secs: i64) -> BirthFile {
    BirthFile::Parsed(RootBirth {
        id: id.to_string(),
        created_at: at(secs),
        kind: SessionKind::Root,
        root_session_id: id.to_string(),
        parent_session_id: None,
        spawn_depth: 0,
    })
}

#[test]
fn a_birth_is_the_later_of_both_files() {
    let evidence = BirthEvidence {
        directory: Probe::Directory,
        main_file: Probe::File,
        main: birth_file("r", 5),
        runtime_file: Probe::File,
        runtime: birth_file("r", 8),
    };
    assert_eq!(canonical_root_birth("r", &evidence).unwrap(), Some(at(8)));
    assert_eq!(
        canonical_root_birth("q", &evidence).unwrap_err().message,
        "Root deletion identity does not match canonical placement"
    );
    let missing = BirthEvidence {
        directory: Probe::Missing,
        main_file: Probe::Missing,
        main: BirthFile::Corrupt("x".to_string()),
        runtime_file: Probe::Missing,
        runtime: BirthFile::Corrupt("x".to_string()),
    };
    assert_eq!(canonical_root_birth("r", &missing).unwrap(), None);
}

#[test]
fn a_revocation_never_goes_back() {
    let p = revoke_root_lifetime("r", Ok(None), Ok(Some(at(5)))).ok().unwrap();
    assert!(p.revoked);
    let w = p.write.unwrap();
    assert_eq!((w.version, w.session_id.as_str(), w.revoked_through), (1, "r", at(5)));
    let p = revoke_root_lifetime("r", Ok(Some(at(9))), Ok(Some(at(5)))).ok().unwrap();
    assert!(p.write.is_none() || p.write.unwrap().revoked_through == at(9));
    let p = revoke_root_lifetime("r", Ok(None), Ok(None)).ok().unwrap();
    assert!(!p.revoked && p.write.is_none());
    assert!(revoke_root_lifetime("r", Err(failure("x")), Ok(None)).is_err());
    assert!(root_birth_is_live(Ok(Some(at(5))), at(6)).unwrap());
    assert!(!root_birth_is_live(Ok(Some(at(5))), at(5)).unwrap());
    assert!(root_birth_is_live(Ok(None), at(5)).unwrap());
    assert!(root_directory_is_revoked(Ok(Some(at(5))), Ok(Some(at(4)))).unwrap());
    assert!(!root_directory_is_revoked(Ok(Some(at(5))), Ok(Some(at(6)))).unwrap());
}

#[test]
fn a_delete_finds_what_is_left_of_a_root() {
    assert!(finds_root_to_delete(true, &None, &None, false));
    assert!(finds_root_to_delete(false, &Some(at(1)), &None, true));
    assert!(finds_root_to_delete(false, &None, &Some(at(1)), true));
    assert!(!finds_root_to_delete(false, &None, &Some(at(1)), false));
    assert!(!finds_root_to_delete(false, &None, &None, true));
}

#[test]
fn a_deleted_root_is_not_saved_back() {
    let s = root("r");
    let e = validate_root_lifetime_for_write(
        &s,
        Ok(Some(at(100))),
        &Probe::Missing,
        &Probe::Missing,
        Ok(false),
    )
    .unwrap_err();
    assert_eq!(
        told(e),
        "Root lifetime is revoked or unavailable: writer belongs to a deleted Root lifetime"
    );
    let mut later = root("r");
    later.created_at = at(200);
    let e = validate_root_lifetime_for_write(
        &later,
        Ok(Some(at(100))),
        &Probe::Missing,
        &Probe::Missing,
        Ok(true),
    )
    .unwrap_err();
    assert_eq!(
        told(e),
        "Root lifetime is revoked or unavailable: a deleted Root ID requires trusted explicit recreation"
    );
    assert!(validate_root_lifetime_for_write(
        &later,
        Ok(Some(at(100))),
        &Probe::File,
        &Probe::File,
        Ok(true)
    )
    .is_ok());
    assert!(validate_root_lifetime_for_write(&s, Ok(None), &Probe::Missing, &Probe::Missing, Ok(true)).is_ok());
    let e = validate_root_lifetime_for_write(
        &child("c", "r"),
        Ok(None),
        &Probe::File,
        &Probe::File,
        Ok(false),
    )
    .unwrap_err();
    assert_eq!(
        told(e),
        "Root lifetime is revoked or unavailable: child belongs to a deleted Root"
    );
}

#[test]
fn a_fresh_birth_is_past_every_revoked_one() {
    assert_eq!(fresh_root_birth(at(50), Ok(None)).unwrap(), at(50));
    assert_eq!(fresh_root_birth(at(50), Ok(Some(at(40)))).unwrap(), at(50));
    assert_eq!(
        fresh_root_birth(at(50), Ok(Some(at(60)))).unwrap(),
        Timestamp { secs: 60, nanos: 1 }
    );
    assert_eq!(
        fresh_root_birth(at(50), Ok(Some(Timestamp { secs: 60, nanos: 999_999_999 }))).unwrap(),
        at(61)
    );
    let last = Timestamp {
        secs: 8_210_266_876_799,
        nanos: 999_999_999,
    };
    assert_eq!(
        fresh_root_birth(at(50), Ok(Some(last))).unwrap_err().message,
        "Root lifetime birth marker exhausted"
    );
}

#[test]
fn recreation_spares_the_living() {
    let e = check_recreation(SUPERVISOR, "m", SUPERVISOR).unwrap_err();
    assert_eq!(
        e.message,
        "ordinary Root recreation requires a non-reserved ID and a model"
    );
    assert!(check_recreation("r", " ", SUPERVISOR).is_err());
    assert!(check_recreation("r", "m", SUPERVISOR).is_ok());
    let e = recreate_ordinary_root(None, Ok(None), Ok(None)).err().unwrap();
    assert_eq!(
        e.message,
        "Root ID has not been deleted; use ordinary first creation"
    );
    let mut live = root("r");
    live.created_at = at(200);
    assert!(matches!(
        recreate_ordinary_root(Some(at(100)), Ok(Some(live)), Ok(Some(at(200)))),
        Ok(RecreationStart::Existing)
    ));
    assert!(matches!(
        recreate_ordinary_root(Some(at(100)), Ok(None), Ok(Some(at(90)))),
        Ok(RecreationStart::Create)
    ));
    let e = remove_revoked_root_directory(Ok(Some(at(100))), Ok(Some(at(101)))).unwrap_err();
    assert_eq!(e.message, "cannot remove a live Root during recreation");
    assert!(remove_revoked_root_directory(Ok(Some(at(100))), Ok(Some(at(99)))).unwrap());
    let s = recreated_root("r", " m ", "New", at(300));
    assert_eq!(s.created_at, at(300));
    assert_eq!(s.id, "r");
    assert_eq!(s.model, "m");
}

#[test]
fn reconciliation_removes_revoked_trees_alone() {
    let entries = vec![
        RevocationEntry {
            name: "r.json".to_string(),
            revoked: Ok(true),
        },
        RevocationEntry {
            name: "q.json".to_string(),
            revoked: Ok(false),
        },
        RevocationEntry {
            name: "x.json".to_string(),
            revoked: Err(failure("x")),
        },
        RevocationEntry {
            name: "note.txt".to_string(),
            revoked: Ok(true),
        },
    ];
    let ids = revoked_roots(&entries);
    assert_eq!(ids, vec!["r", "x"]);
    let mut index = SessionsIndex::empty(at(0));
    for s in [root("r"), child("c", "r"), root("q")] {
        index.upsert_index_from_session_inner(
            index_entry(&s, "x".to_string(), false, &None, &None),
            false,
        );
    }
    reconcile_root_revocations(&mut index, &ids);
    assert!(index.get_index_entry("r").is_none());
    assert!(index.get_index_entry("c").is_none());
    assert!(index.get_index_entry("q").is_some());
}

#[test]
fn a_child_lives_as_long_as_its_root() {
    let parent = ParentEvidence {
        sessions_directory: Probe::Directory,
        directory: Probe::Directory,
        main_file: Probe::File,
        runtime_file: Probe::File,
        runtime: SessionFile::Parsed(root("r")),
    };
    let c = child("c", "r");
    assert!(session_lifetime_is_live(&c, Ok(None), Ok(None), &parent, SUPERVISOR).unwrap());
    assert!(!session_lifetime_is_live(&c, Ok(None), Ok(Some(at(100))), &parent, SUPERVISOR).unwrap());
    let r = root("r");
    assert!(session_lifetime_is_live(&r, Ok(None), Ok(None), &parent, SUPERVISOR).unwrap());
    assert!(!session_lifetime_is_live(&r, Ok(Some(at(100))), Ok(None), &parent, SUPERVISOR).unwrap());
}

#[test]
fn the_fence_asks_for_lifetime_before_context() {
    let mut stale = root("r");
    stale.metadata_version = 0;
    let mut durable = root("r");
    durable.metadata_version = 3;
    let fence = RootFence {
        revocation: Ok(Some(at(100))),
        live: Ok(false),
        context: context(Some(durable.duplicate())),
    };
    let e = validate_root_for_write(&stale, false, &fence).unwrap_err();
    assert!(told(e).starts_with("Root lifetime is revoked"));
    let fence = RootFence {
        revocation: Ok(None),
        live: Ok(true),
        context: context(Some(durable.duplicate())),
    };
    let e = validate_root_for_write(&stale, false, &fence).unwrap_err();
    assert!(told(e).starts_with("Root context changed"));
    assert!(validate_root_for_write(&durable, false, &fence).is_ok());
    assert!(suppress_revoked(Ok(Some(root("r"))), Ok(false)).ok().unwrap().is_none());
    assert!(suppress_revoked(Ok(Some(root("r"))), Ok(true)).ok().unwrap().is_some());
    assert!(suppress_revoked(Ok(Some(root("r"))), Err(failure("x"))).is_err());
}

#[test]
fn damaged_evidence_fails_closed() {
    let r = root("r");
    let born = r.created_at;
    let before = Timestamp { secs: born.secs - 1, nanos: 0 };
    let loaded = || Ok(Some(r.duplicate()));
    assert!(suppress_revoked_authority(Ok(None), Err(failure("damaged")), Ok(None)).is_err());
    assert!(suppress_revoked_authority(loaded(), Err(failure("damaged")), Ok(None)).is_err());
    let torn = suppress_revoked_authority(loaded(), Ok(Some(before)), Err(failure("torn")));
    assert_eq!(torn.err().unwrap().message, "torn");
    assert!(suppress_revoked_authority(Ok(None), Ok(None), Err(failure("x"))).ok().unwrap().is_none());
    let seen = suppress_revoked_authority(loaded(), Ok(Some(before)), Ok(Some(born)));
    assert!(seen.ok().unwrap().unwrap().same(&r));
    let hidden = suppress_revoked_authority(loaded(), Ok(Some(born)), Ok(Some(born)));
    assert!(hidden.ok().unwrap().is_none());
    let remains = suppress_revoked_authority(Err(failure("partial")), Ok(Some(born)), Ok(None));
    assert!(remains.ok().unwrap().is_none());
    let untouched = suppress_revoked_authority(Err(failure("partial")), Ok(None), Ok(None));
    assert_eq!(untouched.err().unwrap().message, "partial");
}
