//! The trusted singleton identity. Canonical session files are its only authority.
use crate::error::{ErrorKind, ErrorView, StorageError};
use crate::error;
use crate::paths::validate_session_id;
use crate::paths;
use crate::probe::{Probe, SessionFile};
use crate::session::{Session, SessionAuthorityIdentity, SessionKind, SessionView};
use crate::session;
use crate::task_journal;
use crate::text::{join2, same_text};
use crate::time::Timestamp;
use vstd::prelude::*;

verus! {

/// A failure of session authority.
pub open spec fn invalid_authority(message: Seq<char>) -> ErrorView {
    error::plain_error(ErrorKind::InvalidData, "session_authority: "@ + message)
}

/// A failure of session authority.
pub fn invalid(message: &str) -> (e: StorageError)
    ensures
        e@ == invalid_authority(message@),
{
    StorageError::new(ErrorKind::InvalidData, join2("session_authority: ", message))
}

/// A failure as a conflict with durable authority.
pub open spec fn as_conflict(e: ErrorView) -> ErrorView {
    ErrorView { authority_conflict: true, ..e }
}

/// Reports a failure as a conflict with durable authority.
pub fn writer_conflict(error: StorageError) -> (e: StorageError)
    ensures
        e@ == as_conflict(error@),
{
    StorageError { authority_conflict: true, ..error }
}

// -------------------------------------------------------------------- identity

/// Whether a session may hold the authority that it claims.
pub open spec fn identity_valid(s: SessionView, default_id: Seq<char>) -> bool {
    match s.authority_identity {
        SessionAuthorityIdentity::Ordinary => true,
        SessionAuthorityIdentity::Supervisor { incarnation_id } => {
            &&& incarnation_id != 0
            &&& s.id == default_id
            &&& s.kind == SessionKind::Root
            &&& s.root_session_id == s.id
            &&& s.parent_session_id is None
            &&& s.spawn_depth == 0
        },
    }
}

/// What checking a session's authority gives.
pub open spec fn identity_check(s: SessionView, default_id: Seq<char>) -> Result<(), ErrorView> {
    if identity_valid(s, default_id) {
        Ok(())
    } else {
        Err(invalid_authority("invalid Supervisor identity or Root lineage"@))
    }
}

/// Rejects Supervisor authority on anything but the default Supervisor root.
pub fn validate_identity(session: &Session, default_id: &str) -> (r: Result<(), StorageError>)
    ensures
        error::plain_view(r) == identity_check(session@, default_id@),
{
    match session.authority_identity {
        SessionAuthorityIdentity::Ordinary => Ok(()),
        SessionAuthorityIdentity::Supervisor { incarnation_id } => {
            if incarnation_id == 0 || !same_text(&session.id, default_id) || session.kind
                != SessionKind::Root || session.root_session_id != session.id
                || session.parent_session_id.is_some() || session.spawn_depth != 0 {
                Err(invalid("invalid Supervisor identity or Root lineage"))
            } else {
                Ok(())
            }
        },
    }
}

/// What checking a session against its sidecar gives.
pub open spec fn overlay_check(
    main: SessionView,
    side: Option<SessionView>,
    default_id: Seq<char>,
) -> Result<(), ErrorView> {
    if identity_check(main, default_id) is Err {
        identity_check(main, default_id)
    } else if side is Some && identity_check(side->0, default_id) is Err {
        identity_check(side->0, default_id)
    } else if main.authority_identity == SessionAuthorityIdentity::Ordinary && (side is None
        || side->0.authority_identity == SessionAuthorityIdentity::Ordinary) {
        Ok(())
    } else if side is None {
        Err(invalid_authority("published Supervisor is missing runtime authority"@))
    } else if main.id != side->0.id || main.authority_identity != side->0.authority_identity {
        Err(invalid_authority("runtime authority does not match the published Session"@))
    } else {
        Ok(())
    }
}

/// Rejects a session and sidecar whose authority is missing on one side or differs.
pub fn validate_overlay(main: &Session, side: &Option<Session>, default_id: &str) -> (r: Result<
    (),
    StorageError,
>)
    ensures
        error::plain_view(r) == overlay_check(main@, crate::session::opt_view(*side), default_id@),
{
    match validate_identity(main, default_id) {
        Err(e) => {
            return Err(e);
        },
        Ok(_) => {},
    }
    match side {
        None => {
            if main.authority_identity == SessionAuthorityIdentity::Ordinary {
                Ok(())
            } else {
                Err(invalid("published Supervisor is missing runtime authority"))
            }
        },
        Some(s) => {
            match validate_identity(s, default_id) {
                Err(e) => {
                    return Err(e);
                },
                Ok(_) => {},
            }
            if main.authority_identity == SessionAuthorityIdentity::Ordinary
                && s.authority_identity == SessionAuthorityIdentity::Ordinary {
                return Ok(());
            }
            if main.id != s.id || main.authority_identity != s.authority_identity {
                return Err(invalid("runtime authority does not match the published Session"));
            }
            Ok(())
        },
    }
}

// --------------------------------------------------------------- root authority

/// The identity that a `session.json` states, without its history.
pub struct MainIdentity {
    pub id: String,
    pub kind: SessionKind,
    pub root_session_id: String,
    pub parent_session_id: Option<String>,
    pub spawn_depth: u32,
    pub created_at: Timestamp,
    pub authority_identity: SessionAuthorityIdentity,
}

/// What reading the identity out of a `session.json` gave.
pub enum IdentityFile {
    Failed(StorageError),
    Corrupt,
    Parsed(MainIdentity),
}

/// What was found of a canonical root: its directories, its two files and their contents.
pub struct RootFiles {
    pub sessions_directory: Probe,
    pub directory: Probe,
    pub main_file: Probe,
    pub main: IdentityFile,
    pub runtime_file: Probe,
    pub runtime: SessionFile,
}

/// Whether something is a real directory.
pub open spec fn directory_check(p: Probe) -> Result<bool, ErrorView> {
    match p {
        Probe::Directory => Ok(true),
        Probe::Missing => Ok(false),
        Probe::Failed(e) => Err(e@),
        _ => Err(invalid_authority("expected a real authority directory"@)),
    }
}

fn real_directory(p: &Probe) -> (r: Result<bool, StorageError>)
    ensures
        error::plain_view(r) == directory_check(*p),
{
    match p {
        Probe::Directory => Ok(true),
        Probe::Missing => Ok(false),
        Probe::Failed(e) => Err(e.clone()),
        _ => Err(invalid("expected a real authority directory")),
    }
}

/// Whether something is a regular file, which it has to be.
pub open spec fn regular_check(p: Probe) -> Result<(), ErrorView> {
    match p {
        Probe::File => Ok(()),
        Probe::Missing => Err(
            invalid_authority("published Root has missing canonical files"@),
        ),
        Probe::Failed(e) => Err(e@),
        _ => Err(invalid_authority("canonical authority is not a regular file"@)),
    }
}

fn read_regular(p: &Probe) -> (r: Result<(), StorageError>)
    ensures
        error::plain_view(r) == regular_check(*p),
{
    match p {
        Probe::File => Ok(()),
        Probe::Missing => Err(invalid("published Root has missing canonical files")),
        Probe::Failed(e) => Err(e.clone()),
        _ => Err(invalid("canonical authority is not a regular file")),
    }
}

/// The root that an ordinary session without one belongs to is itself.
pub open spec fn stated_root(
    identity: SessionAuthorityIdentity,
    root: Seq<char>,
    id: Seq<char>,
) -> Seq<char> {
    if identity == SessionAuthorityIdentity::Ordinary && root.len() == 0 {
        id
    } else {
        root
    }
}

/// Whether a main file states the identity of a session, as it does once that session was written
/// to it.
pub open spec fn states_identity_of(m: MainIdentity, s: SessionView) -> bool {
    &&& m.id@ == s.id
    &&& m.kind == s.kind
    &&& m.root_session_id@ == s.root_session_id
    &&& session::opt_text(m.parent_session_id) == s.parent_session_id
    &&& m.spawn_depth == s.spawn_depth
    &&& m.created_at == s.created_at
    &&& m.authority_identity == s.authority_identity
}

/// Whether both canonical files state the same root identity.
pub open spec fn root_identity_agrees(m: MainIdentity, s: SessionView, id: Seq<char>) -> bool {
    &&& m.id@ == id
    &&& s.id == id
    &&& m.kind == SessionKind::Root
    &&& s.kind == SessionKind::Root
    &&& stated_root(m.authority_identity, m.root_session_id@, id) == id
    &&& stated_root(s.authority_identity, s.root_session_id, id) == id
    &&& m.parent_session_id is None
    &&& s.parent_session_id is None
    &&& m.spawn_depth == 0
    &&& s.spawn_depth == 0
    &&& m.created_at == s.created_at
    &&& m.authority_identity == s.authority_identity
}

/// The control plane of a canonical root, if there is one.
pub open spec fn root_authority(
    id: Seq<char>,
    f: RootFiles,
    default_id: Seq<char>,
) -> Result<Option<SessionView>, ErrorView> {
    if paths::id_check(id) is Err {
        Err(paths::id_check(id)->Err_0)
    } else if directory_check(f.sessions_directory) is Err {
        Err(directory_check(f.sessions_directory)->Err_0)
    } else if directory_check(f.sessions_directory) == Ok::<bool, ErrorView>(false) {
        Err(invalid_authority("sessions directory is missing"@))
    } else if directory_check(f.directory) is Err {
        Err(directory_check(f.directory)->Err_0)
    } else if directory_check(f.directory) == Ok::<bool, ErrorView>(false) {
        Ok(None)
    } else if regular_check(f.main_file) is Err {
        Err(regular_check(f.main_file)->Err_0)
    } else {
        match f.main {
            IdentityFile::Failed(e) => Err(e@),
            IdentityFile::Corrupt => Err(invalid_authority("invalid canonical session.json"@)),
            IdentityFile::Parsed(m) => if regular_check(f.runtime_file) is Err {
                Err(regular_check(f.runtime_file)->Err_0)
            } else {
                match f.runtime {
                    SessionFile::Failed(e) => Err(e@),
                    SessionFile::Parsed(s) => if identity_check(s@, default_id) is Err {
                        Err(identity_check(s@, default_id)->Err_0)
                    } else if !root_identity_agrees(m, s@, id) {
                        Err(invalid_authority("canonical Root identity mismatch"@))
                    } else {
                        Ok(
                            Some(
                                (SessionView {
                                    root_session_id: id,
                                    ..s@
                                }).without_messages().without_stale_budget(),
                            ),
                        )
                    },
                    _ => Err(invalid_authority("invalid canonical runtime.json"@)),
                }
            },
        }
    }
}

/// Loads the control plane of a canonical root from both of its files, never from the index,
/// and never from the main file where the runtime file is missing.
pub fn load_root_authority_unchecked(id: &str, files: RootFiles, default_id: &str) -> (r: Result<
    Option<Session>,
    StorageError,
>)
    ensures
        task_journal::load_view(r) == root_authority(id@, files, default_id@),
{
    match validate_session_id(id) {
        Err(e) => {
            return Err(e);
        },
        Ok(_) => {},
    }
    match real_directory(&files.sessions_directory) {
        Err(e) => {
            return Err(e);
        },
        Ok(there) => {
            if !there {
                return Err(invalid("sessions directory is missing"));
            }
        },
    }
    match real_directory(&files.directory) {
        Err(e) => {
            return Err(e);
        },
        Ok(there) => {
            if !there {
                return Ok(None);
            }
        },
    }
    match read_regular(&files.main_file) {
        Err(e) => {
            return Err(e);
        },
        Ok(_) => {},
    }
    let main = match files.main {
        IdentityFile::Failed(e) => {
            return Err(e);
        },
        IdentityFile::Corrupt => {
            return Err(invalid("invalid canonical session.json"));
        },
        IdentityFile::Parsed(m) => m,
    };
    match read_regular(&files.runtime_file) {
        Err(e) => {
            return Err(e);
        },
        Ok(_) => {},
    }
    let side = match files.runtime {
        SessionFile::Failed(e) => {
            return Err(e);
        },
        SessionFile::Parsed(s) => s,
        _ => {
            return Err(invalid("invalid canonical runtime.json"));
        },
    };
    match validate_identity(&side, default_id) {
        Err(e) => {
            return Err(e);
        },
        Ok(_) => {},
    }
    let main_root_ok = if main.authority_identity == SessionAuthorityIdentity::Ordinary
        && main.root_session_id.as_str().is_empty() {
        true
    } else {
        same_text(&main.root_session_id, id)
    };
    let side_root_ok = if side.authority_identity == SessionAuthorityIdentity::Ordinary
        && side.root_session_id.as_str().is_empty() {
        true
    } else {
        same_text(&side.root_session_id, id)
    };
    if !same_text(&main.id, id) || !same_text(&side.id, id) || main.kind != SessionKind::Root
        || side.kind != SessionKind::Root || !main_root_ok || !side_root_ok
        || main.parent_session_id.is_some() || side.parent_session_id.is_some() || main.spawn_depth
        != 0 || side.spawn_depth != 0 || main.created_at != side.created_at
        || main.authority_identity != side.authority_identity {
        return Err(invalid("canonical Root identity mismatch"));
    }
    let ghost before = side@;
    let mut side = side;
    side.root_session_id = id.to_owned();
    assert(side@ =~= (SessionView { root_session_id: id@, ..before }));
    side.clear_messages();
    side.clear_stale_root_token_budget();
    Ok(Some(side))
}

// ---------------------------------------------------------------- saving authority

/// What a save is answered by the authority rule, where `current` is what loading the root
/// authority under the default Supervisor id gave.
pub open spec fn save_authority_check(
    incoming: SessionView,
    current: Result<Option<SessionView>, ErrorView>,
    default_id: Seq<char>,
) -> Result<(), ErrorView> {
    if identity_check(incoming, default_id) is Err {
        Err(as_conflict(identity_check(incoming, default_id)->Err_0))
    } else if incoming.id != default_id {
        Ok(())
    } else {
        match current {
            Err(e) => Err(as_conflict(e)),
            Ok(Some(c)) => if c.authority_identity == incoming.authority_identity {
                Ok(())
            } else {
                Err(
                    error::conflict_error(
                        ErrorKind::PermissionDenied,
                        "writer identity does not match the durable Session; reload before saving"@,
                    ),
                )
            },
            Ok(None) => if incoming.authority_identity == SessionAuthorityIdentity::Ordinary {
                Ok(())
            } else {
                Err(
                    error::conflict_error(
                        ErrorKind::PermissionDenied,
                        "only trusted bootstrap can create Supervisor authority"@,
                    ),
                )
            },
        }
    }
}

/// Rejects a save that would change who holds Supervisor authority.
pub fn validate_authority_for_save(
    incoming: &Session,
    current: &Result<Option<Session>, StorageError>,
    default_id: &str,
) -> (r: Result<(), StorageError>)
    ensures
        error::plain_view(r) == save_authority_check(incoming@, task_journal::load_view(*current), default_id@),
{
    match validate_identity(incoming, default_id) {
        Err(e) => {
            return Err(writer_conflict(e));
        },
        Ok(_) => {},
    }
    if !same_text(&incoming.id, default_id) {
        return Ok(());
    }
    match current {
        Err(e) => Err(writer_conflict(e.clone())),
        Ok(Some(c)) => {
            if c.authority_identity == incoming.authority_identity {
                Ok(())
            } else {
                Err(
                    StorageError::conflict(
                        ErrorKind::PermissionDenied,
                        "writer identity does not match the durable Session; reload before saving".to_owned(),
                    ),
                )
            }
        },
        Ok(None) => {
            if incoming.authority_identity == SessionAuthorityIdentity::Ordinary {
                Ok(())
            } else {
                Err(
                    StorageError::conflict(
                        ErrorKind::PermissionDenied,
                        "only trusted bootstrap can create Supervisor authority".to_owned(),
                    ),
                )
            }
        },
    }
}

// ------------------------------------------------------------------------- laws

/// No ordinary save gives Supervisor authority to a session that does not hold it durably, nor
/// takes it from one that does: whatever is let through under the default id has the durable
/// identity, or is ordinary where nothing is durable.
pub proof fn saves_never_move_authority(
    incoming: SessionView,
    current: Result<Option<SessionView>, ErrorView>,
    default_id: Seq<char>,
)
    requires
        save_authority_check(incoming, current, default_id) is Ok,
    ensures
        incoming.id != default_id ==> incoming.authority_identity
            == SessionAuthorityIdentity::Ordinary,
        incoming.id == default_id ==> current is Ok,
        incoming.id == default_id && current->Ok_0 is Some ==> incoming.authority_identity
            == current->Ok_0->0.authority_identity,
        incoming.id == default_id && current->Ok_0 is None ==> incoming.authority_identity
            == SessionAuthorityIdentity::Ordinary,
{
}

/// Root authority is never read from a session without a runtime file.
pub proof fn root_authority_needs_both_files(
    id: Seq<char>,
    f: RootFiles,
    default_id: Seq<char>,
)
    requires
        root_authority(id, f, default_id) is Ok,
        root_authority(id, f, default_id)->Ok_0 is Some,
    ensures
        f.main_file is File,
        f.runtime_file is File,
        f.main is Parsed,
        f.runtime is Parsed,
        root_authority(id, f, default_id)->Ok_0->0.id == id,
        root_authority(id, f, default_id)->Ok_0->0.root_session_id == id,
        root_authority(id, f, default_id)->Ok_0->0.kind == SessionKind::Root,
        root_authority(id, f, default_id)->Ok_0->0.messages.len() == 0,
        root_authority(id, f, default_id)->Ok_0->0.created_at == f.main->Parsed_0.created_at,
        identity_valid(root_authority(id, f, default_id)->Ok_0->0, default_id),
{
}

/// An ordinary session may claim that; Supervisor authority may be claimed by the root of the
/// default Supervisor's id alone, under an incarnation other than zero.
pub proof fn who_may_claim_authority(s: SessionView, default_id: Seq<char>, incarnation: u128)
    ensures
        s.authority_identity == SessionAuthorityIdentity::Ordinary ==> identity_check(s, default_id)
            is Ok,
        s.authority_identity == (SessionAuthorityIdentity::Supervisor { incarnation_id: incarnation })
            ==> (identity_check(s, default_id) is Ok <==> incarnation != 0 && s.id == default_id
            && s.kind == SessionKind::Root && s.root_session_id == default_id && s.parent_session_id
            is None && s.spawn_depth == 0),
{
}

/// The two files of a session go together exactly where each may claim what it claims and both claim
/// the same: nothing, or one incarnation under one id.
pub proof fn which_files_go_together(
    main: SessionView,
    side: SessionView,
    default_id: Seq<char>,
)
    ensures
        overlay_check(main, Some(side), default_id) is Ok <==> identity_check(main, default_id) is Ok
            && identity_check(side, default_id) is Ok && main.authority_identity
            == side.authority_identity && (main.authority_identity
            == SessionAuthorityIdentity::Ordinary || main.id == side.id),
        overlay_check(main, None, default_id) is Ok <==> main.authority_identity
            == SessionAuthorityIdentity::Ordinary,
{
}

/// Root authority is given wherever both files stand and state one and the same root: it is the
/// runtime file without messages, as a root of itself, less its token budget. There is none where
/// the root has no directory; anything else is a failure.
pub proof fn root_authority_is_the_runtime_file(
    id: Seq<char>,
    f: RootFiles,
    main: MainIdentity,
    side: Session,
    default_id: Seq<char>,
)
    ensures
        ({
            let r = root_authority(id, f, default_id);
            &&& paths::id_check(id) is Ok && f.sessions_directory is Directory && f.directory
                is Missing ==> r == Ok::<Option<SessionView>, ErrorView>(None)
            &&& f.sessions_directory is Missing || paths::id_check(id) is Err ==> r is Err
            &&& f.directory is Directory && r is Ok ==> r->Ok_0 is Some
            &&& f.main == IdentityFile::Parsed(main) && f.runtime == SessionFile::Parsed(side)
                && f.sessions_directory is Directory && f.directory is Directory && f.main_file
                is File && f.runtime_file is File && paths::id_check(id) is Ok && identity_check(
                side@,
                default_id,
            ) is Ok && main.id@ == id && side@.id == id && main.kind == SessionKind::Root
                && side@.kind == SessionKind::Root && main.root_session_id@ == id
                && side@.root_session_id == id && main.parent_session_id is None
                && side@.parent_session_id is None && main.spawn_depth == 0 && side@.spawn_depth == 0
                && main.created_at == side@.created_at && main.authority_identity
                == side@.authority_identity ==> r is Ok && r->Ok_0 is Some
            &&& r is Ok && r->Ok_0 is Some && f.runtime == SessionFile::Parsed(side) ==> {
                let v = r->Ok_0->0;
                &&& v.messages.len() == 0 && v.root_session_id == id && v.token_budget is None
                &&& (SessionView {
                    messages: side@.messages,
                    root_session_id: side@.root_session_id,
                    token_budget: side@.token_budget,
                    ..v
                }) == side@
            }
            &&& r is Ok && r->Ok_0 is Some && f.main == IdentityFile::Parsed(main)
                && f.runtime == SessionFile::Parsed(side) ==> main.id@ == id && main.kind
                == SessionKind::Root && main.parent_session_id is None && main.spawn_depth == 0
                && main.created_at == side@.created_at && main.authority_identity
                == side@.authority_identity && (main.root_session_id@ == id || (
            main.root_session_id@.len() == 0 && main.authority_identity
                == SessionAuthorityIdentity::Ordinary))
        }),
{
}

/// A save is let through by the rule of authority wherever it may claim what it claims and, under the
/// default Supervisor's id, claims what is durable there, or nothing where nothing is.
pub proof fn who_may_save(
    incoming: SessionView,
    current: Result<Option<SessionView>, ErrorView>,
    default_id: Seq<char>,
)
    ensures
        save_authority_check(incoming, current, default_id) is Ok <==> identity_check(
            incoming,
            default_id,
        ) is Ok && (incoming.id == default_id ==> current is Ok && (current->Ok_0 is Some
            ==> current->Ok_0->0.authority_identity == incoming.authority_identity) && (
        current->Ok_0 is None ==> incoming.authority_identity
            == SessionAuthorityIdentity::Ordinary)),
        save_authority_check(incoming, current, default_id) is Err ==> save_authority_check(
            incoming,
            current,
            default_id,
        )->Err_0.authority_conflict,
{
}

/// An authority that is none is refused as invalid data, marked as one about authority; a save that
/// would move authority is refused as not permitted, and every refusal of a save keeps the kind and
/// the message of its cause.
pub proof fn how_authority_is_refused(
    s: SessionView,
    c: SessionView,
    e: ErrorView,
    message: Seq<char>,
    default_id: Seq<char>,
)
    ensures
        invalid_authority(message).kind == ErrorKind::InvalidData,
        invalid_authority(message).message == "session_authority: "@ + message,
        !invalid_authority(message).authority_conflict,
        identity_check(s, default_id) is Err ==> identity_check(s, default_id)->Err_0.kind
            == ErrorKind::InvalidData,
        as_conflict(e).kind == e.kind && as_conflict(e).message == e.message
            && as_conflict(e).authority_conflict,
        s.id == default_id && identity_check(s, default_id) is Ok ==> ({
            let r = save_authority_check(s, Err(e), default_id);
            r is Err && r->Err_0.kind == e.kind && r->Err_0.message == e.message
        }),
        s.id == default_id && identity_check(s, default_id) is Ok && c.authority_identity
            != s.authority_identity ==> save_authority_check(
            s,
            Ok(Some(c)),
            default_id,
        )->Err_0.kind == ErrorKind::PermissionDenied,
        s.id == default_id && identity_check(s, default_id) is Ok && s.authority_identity
            != SessionAuthorityIdentity::Ordinary ==> save_authority_check(
            s,
            Ok(None),
            default_id,
        )->Err_0.kind == ErrorKind::PermissionDenied,
{
}

} // verus!
