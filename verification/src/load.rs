//! Reading sessions back: the sidecar overlay and the loaders over what was found on disk.
use crate::error::{other_io_error, ErrorKind, ErrorView, StorageError};
use crate::error;
use crate::paths::{root_rel_path, validate_session_id};
use crate::paths;
use crate::probe::{Probe, SessionFile};
use crate::session::{SessionAuthorityIdentity, clone_opt, MessageView, Session, SessionKind, SessionRuntimeMetadata, SessionRuntimeMetadataView, SessionView};
use crate::session;
use crate::supervisor::{validate_identity, validate_overlay};
use crate::supervisor;
use crate::task_journal;
use crate::text::{join2, same_option_text, same_text};
use vstd::prelude::*;

verus! {

// --------------------------------------------------------------- the sidecar

/// What the runtime sidecar of a session holds: everything but what is committed with the
/// message history.
pub open spec fn sidecar_of(s: SessionView) -> SessionView {
    SessionView {
        messages: Seq::empty(),
        provider_transcript: Seq::empty(),
        runtime_metadata: match s.runtime_metadata {
            Some(m) => Some(SessionRuntimeMetadataView { session_inbox_admission: None, ..m }),
            None => None,
        },
        ..s
    }
}

/// Builds what the runtime sidecar of a session holds.
pub fn runtime_sidecar_snapshot(session: &Session) -> (r: Session)
    ensures
        r@ == sidecar_of(session@),
{
    let mut s = session.duplicate();
    s.messages = Vec::new();
    s.provider_transcript = String::new();
    s.runtime_metadata = match s.runtime_metadata.take() {
        Some(m) => {
            let mut m = m;
            m.session_inbox_admission = None;
            Some(m)
        },
        None => None,
    };
    assert(s@.messages =~= Seq::<MessageView>::empty());
    assert(s@ =~= sidecar_of(session@));
    s
}

/// The inbox admission record of a session.
pub open spec fn admission_of(s: SessionView) -> Option<Seq<char>> {
    match s.runtime_metadata {
        Some(m) => m.session_inbox_admission,
        None => None,
    }
}

/// Runtime metadata with its inbox admission record replaced; none is made to hold no record.
pub open spec fn with_admission(
    m: Option<SessionRuntimeMetadataView>,
    admission: Option<Seq<char>>,
) -> Option<SessionRuntimeMetadataView> {
    match m {
        Some(m) => Some(SessionRuntimeMetadataView { session_inbox_admission: admission, ..m }),
        None => if admission is Some {
            Some(
                SessionRuntimeMetadataView {
                    session_inbox_admission: admission,
                    ..session::no_runtime_metadata()
                },
            )
        } else {
            None
        },
    }
}

/// A session read back: the sidecar's control plane with the main file's message history.
pub open spec fn overlaid(main: SessionView, side: Option<SessionView>) -> SessionView {
    match side {
        None => main,
        Some(s) => SessionView {
            messages: main.messages,
            provider_transcript: main.provider_transcript,
            runtime_metadata: with_admission(s.runtime_metadata, admission_of(main)),
            ..s
        },
    }
}

/// Lays the sidecar's control plane over a session read from its main file.
pub fn overlay_runtime_sidecar(main: Session, sidecar: Option<Session>) -> (r: Session)
    ensures
        r@ == overlaid(main@, session::opt_view(sidecar)),
{
    match sidecar {
        None => main,
        Some(side) => {
            let ghost before = side@;
            let ghost original = main@;
            let mut side = side;
            let admission = match &main.runtime_metadata {
                Some(m) => clone_opt(&m.session_inbox_admission),
                None => None,
            };
            side.messages = main.messages;
            side.provider_transcript = main.provider_transcript;
            side.runtime_metadata = match side.runtime_metadata.take() {
                Some(m) => {
                    let mut m = m;
                    m.session_inbox_admission = admission;
                    Some(m)
                },
                None => match admission {
                    Some(a) => {
                        let mut m = SessionRuntimeMetadata::unset();
                        m.session_inbox_admission = Some(a);
                        Some(m)
                    },
                    None => None,
                },
            };
            assert(side@ =~= overlaid(original, Some(before)));
            side
        },
    }
}

// ------------------------------------------------------------------ reading files

/// What a sidecar file gives: a corrupt one counts as none.
pub open spec fn sidecar_read(
    f: SessionFile,
    default_id: Seq<char>,
) -> Result<Option<SessionView>, ErrorView> {
    match f {
        SessionFile::Missing => Ok(None),
        SessionFile::Failed(e) => Err(e@),
        SessionFile::Corrupt(_) => Ok(None),
        SessionFile::Parsed(s) => if supervisor::identity_check(s@, default_id) is Err {
            Err(supervisor::identity_check(s@, default_id)->Err_0)
        } else {
            Ok(Some(s@.without_stale_budget()))
        },
    }
}

/// Takes a sidecar file that was read.
pub fn read_runtime_sidecar_at(file: SessionFile, default_id: &str) -> (r: Result<
    Option<Session>,
    StorageError,
>)
    ensures
        task_journal::load_view(r) == sidecar_read(file, default_id@),
{
    match file {
        SessionFile::Missing => Ok(None),
        SessionFile::Failed(e) => Err(e),
        SessionFile::Corrupt(_) => Ok(None),
        SessionFile::Parsed(s) => {
            match validate_identity(&s, default_id) {
                Err(e) => {
                    return Err(e);
                },
                Ok(_) => {},
            }
            let mut s = s;
            s.clear_stale_root_token_budget();
            Ok(Some(s))
        },
    }
}

/// A session and its sidecar put together, where their authority agrees.
pub open spec fn combined(
    main: SessionView,
    side: Option<SessionView>,
    default_id: Seq<char>,
) -> Result<SessionView, ErrorView> {
    match supervisor::overlay_check(main, side, default_id) {
        Err(e) => Err(e),
        Ok(_) => Ok(overlaid(main, side).without_stale_budget()),
    }
}

fn combine(main: Session, side: Option<Session>, default_id: &str) -> (r: Result<
    Session,
    StorageError,
>)
    ensures
        crate::error::result_view(r) == combined(main@, session::opt_view(side), default_id@),
{
    match validate_overlay(&main, &side, default_id) {
        Err(e) => Err(e),
        Ok(_) => {
            let mut s = overlay_runtime_sidecar(main, side);
            s.clear_stale_root_token_budget();
            Ok(s)
        },
    }
}

/// What loading a session gives, where `indexed` says whether the index knows it.
pub open spec fn loaded_session(
    id: Seq<char>,
    indexed: bool,
    main: SessionFile,
    side: SessionFile,
    default_id: Seq<char>,
) -> Result<Option<SessionView>, ErrorView> {
    if paths::id_check(id) is Err {
        Err(paths::id_check(id)->Err_0)
    } else if !indexed {
        Ok(None)
    } else {
        match main {
            SessionFile::Missing => Ok(None),
            SessionFile::Failed(e) => Err(e@),
            SessionFile::Corrupt(t) => Err(
                error::plain_error(ErrorKind::Other, "invalid session.json: "@ + t@),
            ),
            SessionFile::Parsed(m) => match sidecar_read(side, default_id) {
                Err(e) => Err(e),
                Ok(s) => match combined(m@, s, default_id) {
                    Err(e) => Err(e),
                    Ok(v) => Ok(Some(v)),
                },
            },
        }
    }
}

/// Loads a session from what its two files hold.
pub fn load_session_unlocked(
    session_id: &str,
    indexed: bool,
    main: SessionFile,
    side: SessionFile,
    default_id: &str,
) -> (r: Result<Option<Session>, StorageError>)
    ensures
        task_journal::load_view(r) == loaded_session(session_id@, indexed, main, side, default_id@),
{
    match validate_session_id(session_id) {
        Err(e) => {
            return Err(e);
        },
        Ok(_) => {},
    }
    if !indexed {
        return Ok(None);
    }
    match main {
        SessionFile::Missing => Ok(None),
        SessionFile::Failed(e) => Err(e),
        SessionFile::Corrupt(t) => Err(other_io_error(&join2("invalid session.json: ", &t))),
        SessionFile::Parsed(m) => match read_runtime_sidecar_at(side, default_id) {
            Err(e) => Err(e),
            Ok(s) => match combine(m, s, default_id) {
                Err(e) => Err(e),
                Ok(v) => Ok(Some(v)),
            },
        },
    }
}

/// What a rebuild of the index takes from a session's directory: nothing where the session
/// cannot be read.
pub open spec fn rebuilt_session(
    main: SessionFile,
    side: SessionFile,
    default_id: Seq<char>,
) -> Option<SessionView> {
    match main {
        SessionFile::Parsed(m) => {
            let s = match sidecar_read(side, default_id) {
                Ok(s) => s,
                Err(_) => None,
            };
            match combined(m@, s, default_id) {
                Ok(v) => Some(v),
                Err(_) => None,
            }
        },
        _ => None,
    }
}

/// Loads a session for a rebuild of the index; one that cannot be read is passed over.
pub fn load_session_from_dir(main: SessionFile, side: SessionFile, default_id: &str) -> (r: Option<
    Session,
>)
    ensures
        session::opt_view(r) == rebuilt_session(main, side, default_id@),
{
    match main {
        SessionFile::Parsed(m) => {
            let s = match read_runtime_sidecar_at(side, default_id) {
                Ok(s) => s,
                Err(_) => None,
            };
            match combine(m, s, default_id) {
                Ok(v) => Some(v),
                Err(_) => None,
            }
        },
        _ => None,
    }
}

/// A root found at its own place that states no root yet belongs to itself.
pub open spec fn rooted(s: SessionView, kind: SessionKind, root: Seq<char>, id: Seq<char>) -> SessionView {
    if kind == SessionKind::Root && root == id && s.root_session_id.len() == 0 {
        SessionView { root_session_id: id, ..s }
    } else {
        s
    }
}

fn set_root(s: Session, kind: SessionKind, root: &str, id: &str) -> (r: Session)
    ensures
        r@ == rooted(s@, kind, root@, id@),
{
    let ghost before = s@;
    if kind == SessionKind::Root && same_text(root, id) && s.root_session_id.as_str().is_empty() {
        let mut s = s;
        s.root_session_id = id.to_owned();
        assert(s@ =~= rooted(before, kind, root@, id@));
        s
    } else {
        s
    }
}

/// What a strict load of a session gives: unlike a rebuild it tells a missing session from a
/// damaged one and never falls back to the control plane in the main file.
pub open spec fn strict_session(
    id: Seq<char>,
    kind: SessionKind,
    root: Seq<char>,
    main: SessionFile,
    side: SessionFile,
    default_id: Seq<char>,
) -> Result<Option<SessionView>, ErrorView> {
    match main {
        SessionFile::Missing => Ok(None),
        SessionFile::Failed(e) => Err(e@),
        SessionFile::Corrupt(t) => Err(
            error::plain_error(ErrorKind::InvalidData, "invalid source session.json: "@ + t@),
        ),
        SessionFile::Parsed(m) => {
            let main = rooted(m@, kind, root, id);
            if main.id != id || main.kind != kind || main.root_session_id != root {
                Err(
                    error::plain_error(
                        ErrorKind::InvalidData,
                        "session identity does not match its expected canonical path"@,
                    ),
                )
            } else {
                match side {
                    SessionFile::Failed(e) => Err(e@),
                    SessionFile::Corrupt(t) => Err(
                        error::plain_error(ErrorKind::InvalidData, "invalid source runtime.json: "@ + t@),
                    ),
                    SessionFile::Missing => match combined(main, None, default_id) {
                        Err(e) => Err(e),
                        Ok(v) => Ok(Some(v)),
                    },
                    SessionFile::Parsed(s) => {
                        let side = rooted(s@, kind, root, id);
                        if side.id != id || side.kind != main.kind || side.root_session_id
                            != main.root_session_id || side.parent_session_id
                            != main.parent_session_id {
                            Err(
                                error::plain_error(
                                    ErrorKind::InvalidData,
                                    "source runtime sidecar identity does not match session.json"@,
                                ),
                            )
                        } else {
                            match combined(main, Some(side), default_id) {
                                Err(e) => Err(e),
                                Ok(v) => Ok(Some(v)),
                            }
                        }
                    },
                }
            }
        },
    }
}

/// Loads a session strictly from what its two files hold.
pub fn load_session_from_dir_strict(
    id: &str,
    expected_kind: SessionKind,
    expected_root_id: &str,
    main: SessionFile,
    side: SessionFile,
    default_id: &str,
) -> (r: Result<Option<Session>, StorageError>)
    ensures
        task_journal::load_view(r) == strict_session(
            id@,
            expected_kind,
            expected_root_id@,
            main,
            side,
            default_id@,
        ),
{
    let main = match main {
        SessionFile::Missing => {
            return Ok(None);
        },
        SessionFile::Failed(e) => {
            return Err(e);
        },
        SessionFile::Corrupt(t) => {
            return Err(
                StorageError::new(
                    ErrorKind::InvalidData,
                    join2("invalid source session.json: ", &t),
                ),
            );
        },
        SessionFile::Parsed(m) => set_root(m, expected_kind, expected_root_id, id),
    };
    if !same_text(&main.id, id) || main.kind != expected_kind || !same_text(
        &main.root_session_id,
        expected_root_id,
    ) {
        return Err(
            StorageError::new(
                ErrorKind::InvalidData,
                "session identity does not match its expected canonical path".to_owned(),
            ),
        );
    }
    let sidecar = match side {
        SessionFile::Missing => None,
        SessionFile::Failed(e) => {
            return Err(e);
        },
        SessionFile::Corrupt(t) => {
            return Err(
                StorageError::new(
                    ErrorKind::InvalidData,
                    join2("invalid source runtime.json: ", &t),
                ),
            );
        },
        SessionFile::Parsed(s) => {
            let s = set_root(s, expected_kind, expected_root_id, id);
            if !same_text(&s.id, id) || s.kind != main.kind || s.root_session_id
                != main.root_session_id || !same_option_text(
                &s.parent_session_id,
                &main.parent_session_id,
            ) {
                return Err(
                    StorageError::new(
                        ErrorKind::InvalidData,
                        "source runtime sidecar identity does not match session.json".to_owned(),
                    ),
                );
            }
            Some(s)
        },
    };
    match combine(main, sidecar, default_id) {
        Err(e) => Err(e),
        Ok(v) => Ok(Some(v)),
    }
}

/// What loading a root from its own directory gives, without trusting the index.
pub open spec fn authoritative_root(
    id: Seq<char>,
    main: SessionFile,
    side: SessionFile,
    default_id: Seq<char>,
) -> Result<Option<SessionView>, ErrorView> {
    match main {
        SessionFile::Missing => Ok(None),
        SessionFile::Failed(e) => Err(e@),
        SessionFile::Corrupt(t) => Err(
            error::plain_error(ErrorKind::Other, "invalid authoritative session.json: "@ + t@),
        ),
        SessionFile::Parsed(m) => match sidecar_read(side, default_id) {
            Err(e) => Err(e),
            Ok(s) => match combined(m@, s, default_id) {
                Err(e) => Err(e),
                Ok(v) => if v.id != id || v.kind != SessionKind::Root {
                    Err(
                        error::plain_error(
                            ErrorKind::Other,
                            "authoritative root session identity or kind mismatch"@,
                        ),
                    )
                } else {
                    Ok(Some(v))
                },
            },
        },
    }
}

/// Loads a root from its own directory, without trusting the index.
pub fn load_authoritative_root_session(
    session_id: &str,
    main: SessionFile,
    side: SessionFile,
    default_id: &str,
) -> (r: Result<Option<Session>, StorageError>)
    ensures
        task_journal::load_view(r) == authoritative_root(session_id@, main, side, default_id@),
{
    match main {
        SessionFile::Missing => Ok(None),
        SessionFile::Failed(e) => Err(e),
        SessionFile::Corrupt(t) => Err(
            other_io_error(&join2("invalid authoritative session.json: ", &t)),
        ),
        SessionFile::Parsed(m) => match read_runtime_sidecar_at(side, default_id) {
            Err(e) => Err(e),
            Ok(s) => match combine(m, s, default_id) {
                Err(e) => Err(e),
                Ok(v) => if !same_text(&v.id, session_id) || v.kind != SessionKind::Root {
                    Err(other_io_error("authoritative root session identity or kind mismatch"))
                } else {
                    Ok(Some(v))
                },
            },
        },
    }
}

/// What probing a root gives: its id is checked first.
pub open spec fn probed_root(
    id: Seq<char>,
    main: SessionFile,
    side: SessionFile,
    default_id: Seq<char>,
) -> Result<Option<SessionView>, ErrorView> {
    if paths::id_check(id) is Err {
        Err(paths::id_check(id)->Err_0)
    } else {
        authoritative_root(id, main, side, default_id)
    }
}

/// Probes a root at its own directory; the index is neither read nor changed.
pub fn probe_root_session_from_disk(
    session_id: &str,
    main: SessionFile,
    side: SessionFile,
    default_id: &str,
) -> (r: Result<Option<Session>, StorageError>)
    ensures
        task_journal::load_view(r) == probed_root(session_id@, main, side, default_id@),
{
    match validate_session_id(session_id) {
        Err(e) => {
            return Err(e);
        },
        Ok(_) => {},
    }
    load_authoritative_root_session(session_id, main, side, default_id)
}

/// Where a session stands on disk, relative to the home directory.
pub enum SessionPlace {
    /// Where the index of this process lists it.
    Listed(String),
    /// At the place of a root, which the index of this process does not list.
    Unlisted(String),
    Nowhere,
}

/// What a [`SessionPlace`] holds.
pub enum PlaceView {
    Listed(Seq<char>),
    Unlisted(Seq<char>),
    Nowhere,
}

impl View for SessionPlace {
    type V = PlaceView;

    open spec fn view(&self) -> PlaceView {
        match *self {
            SessionPlace::Listed(rel) => PlaceView::Listed(rel@),
            SessionPlace::Unlisted(rel) => PlaceView::Unlisted(rel@),
            SessionPlace::Nowhere => PlaceView::Nowhere,
        }
    }
}

/// Where a session stands: where the index lists it, or else at the place of a root of its id,
/// unless both of that root's files are missing. What cannot be probed counts as there.
pub open spec fn place_of(
    id: Seq<char>,
    listed: Option<Seq<char>>,
    main_file: Probe,
    runtime_file: Probe,
) -> PlaceView {
    match listed {
        Some(rel) => PlaceView::Listed(rel),
        None => if paths::id_check(id) is Ok && !(main_file is Missing && runtime_file is Missing) {
            PlaceView::Unlisted(paths::root_path(id))
        } else {
            PlaceView::Nowhere
        },
    }
}

/// Finds where a session stands. `listed` is its place in the index of this process; the probes
/// are of the two files at the place of a root of its id.
pub fn find_session(
    session_id: &str,
    listed: Option<String>,
    main_file: &Probe,
    runtime_file: &Probe,
) -> (r: SessionPlace)
    ensures
        r@ == place_of(session_id@, session::opt_text(listed), *main_file, *runtime_file),
{
    match listed {
        Some(rel) => SessionPlace::Listed(rel),
        None => {
            let no_main = match main_file {
                Probe::Missing => true,
                _ => false,
            };
            let no_runtime = match runtime_file {
                Probe::Missing => true,
                _ => false,
            };
            if validate_session_id(session_id).is_ok() && !(no_main && no_runtime) {
                SessionPlace::Unlisted(root_rel_path(session_id))
            } else {
                SessionPlace::Nowhere
            }
        },
    }
}

/// What loading a session's control plane gives, from the files at its place. `authority` is
/// what loading the root authority under the default Supervisor id gave, and counts for that id
/// alone.
pub open spec fn control_plane(
    id: Seq<char>,
    authority: Result<Option<SessionView>, ErrorView>,
    place: PlaceView,
    main: SessionFile,
    side: SessionFile,
    default_id: Seq<char>,
) -> Result<Option<SessionView>, ErrorView> {
    if paths::id_check(id) is Err {
        Err(paths::id_check(id)->Err_0)
    } else if id == default_id && authority is Err {
        Err(authority->Err_0)
    } else if id == default_id && authority->Ok_0 is Some {
        authority
    } else if place is Nowhere {
        Ok(None)
    } else {
        match sidecar_read(side, default_id) {
            Err(e) => Err(e),
            Ok(Some(s)) => Ok(Some(s)),
            Ok(None) => match main {
                SessionFile::Missing => Ok(None),
                SessionFile::Failed(e) => Err(e@),
                SessionFile::Corrupt(t) => Err(
                    error::plain_error(ErrorKind::Other, "invalid session.json: "@ + t@),
                ),
                SessionFile::Parsed(m) => if supervisor::identity_check(m@, default_id) is Err {
                    Err(supervisor::identity_check(m@, default_id)->Err_0)
                } else {
                    Ok(Some(m@.without_messages().without_stale_budget()))
                },
            },
        }
    }
}

/// Loads a session's control plane: its sidecar, or the main file's where it has none.
pub fn load_runtime_control_plane_unchecked(
    session_id: &str,
    authority: Result<Option<Session>, StorageError>,
    place: &SessionPlace,
    main: SessionFile,
    side: SessionFile,
    default_id: &str,
) -> (r: Result<Option<Session>, StorageError>)
    ensures
        task_journal::load_view(r) == control_plane(
            session_id@,
            task_journal::load_view(authority),
            place@,
            main,
            side,
            default_id@,
        ),
{
    match validate_session_id(session_id) {
        Err(e) => {
            return Err(e);
        },
        Ok(_) => {},
    }
    if same_text(session_id, default_id) {
        match authority {
            Err(e) => {
                return Err(e);
            },
            Ok(Some(root)) => {
                return Ok(Some(root));
            },
            Ok(None) => {},
        }
    }
    match place {
        SessionPlace::Nowhere => {
            return Ok(None);
        },
        _ => {},
    }
    match read_runtime_sidecar_at(side, default_id) {
        Err(e) => {
            return Err(e);
        },
        Ok(Some(s)) => {
            return Ok(Some(s));
        },
        Ok(None) => {},
    }
    match main {
        SessionFile::Missing => Ok(None),
        SessionFile::Failed(e) => Err(e),
        SessionFile::Corrupt(t) => Err(other_io_error(&join2("invalid session.json: ", &t))),
        SessionFile::Parsed(m) => {
            match validate_identity(&m, default_id) {
                Err(e) => {
                    return Err(e);
                },
                Ok(_) => {},
            }
            let mut m = m;
            m.clear_messages();
            m.clear_stale_root_token_budget();
            Ok(Some(m))
        },
    }
}

// --------------------------------------------------------------- migration

/// What a migration does with an indexed session: the sidecar to write for it, if any. `live`
/// says whether the lifetime of the session is not revoked; one of a deleted root, or whose
/// lifetime cannot be told, gets no sidecar, and the migration ends.
pub open spec fn migration_of(
    has_sidecar: bool,
    main: SessionFile,
    live: Result<bool, ErrorView>,
    default_id: Seq<char>,
) -> Result<Option<SessionView>, ErrorView> {
    if has_sidecar {
        Ok(None)
    } else {
        match main {
            SessionFile::Missing => Ok(None),
            SessionFile::Failed(e) => Err(e@),
            SessionFile::Corrupt(_) => Ok(None),
            SessionFile::Parsed(s) => if supervisor::identity_check(s@, default_id) is Err {
                Err(supervisor::identity_check(s@, default_id)->Err_0)
            } else if s@.authority_identity
                != crate::session::SessionAuthorityIdentity::Ordinary {
                Err(
                    error::plain_error(
                        ErrorKind::InvalidData,
                        "cannot reconstruct missing Supervisor authority from session.json"@,
                    ),
                )
            } else {
                match live {
                    Err(e) => Err(e),
                    Ok(false) => Err(
                        error::plain_error(
                            ErrorKind::InvalidData,
                            "cannot reconstruct the runtime of a deleted Root from session.json"@,
                        ),
                    ),
                    Ok(true) => Ok(Some(sidecar_of(s@))),
                }
            },
        }
    }
}

/// Decides the sidecar migration of one indexed session: the sidecar to write for it, if any.
pub fn migrate_runtime_sidecar(
    has_sidecar: bool,
    main: SessionFile,
    live: Result<bool, StorageError>,
    default_id: &str,
) -> (r: Result<Option<Session>, StorageError>)
    ensures
        task_journal::load_view(r) == migration_of(
            has_sidecar,
            main,
            error::plain_view(live),
            default_id@,
        ),
{
    if has_sidecar {
        return Ok(None);
    }
    match main {
        SessionFile::Missing => Ok(None),
        SessionFile::Failed(e) => Err(e),
        SessionFile::Corrupt(_) => Ok(None),
        SessionFile::Parsed(s) => {
            match validate_identity(&s, default_id) {
                Err(e) => {
                    return Err(e);
                },
                Ok(_) => {},
            }
            if s.authority_identity != crate::session::SessionAuthorityIdentity::Ordinary {
                return Err(
                    StorageError::new(
                        ErrorKind::InvalidData,
                        "cannot reconstruct missing Supervisor authority from session.json".to_owned(),
                    ),
                );
            }
            match live {
                Err(e) => Err(e),
                Ok(false) => Err(
                    StorageError::new(
                        ErrorKind::InvalidData,
                        "cannot reconstruct the runtime of a deleted Root from session.json".to_owned(),
                    ),
                ),
                Ok(true) => Ok(Some(runtime_sidecar_snapshot(&s))),
            }
        },
    }
}

// ------------------------------------------------------------------------- laws

/// A full save reads back as it was written: the main file with the sidecar of the same session
/// laid over it is that session.
pub proof fn a_full_save_reads_back(s: SessionView)
    ensures
        overlaid(s, Some(sidecar_of(s))) == s,
        overlaid(s, None) == s,
{
    assert(overlaid(s, Some(sidecar_of(s))) =~= s);
}

/// After a runtime-only save of `t` over a full save of `s`, a read gives the control plane of
/// `t` with the message history, native transcript and inbox admission of `s`.
pub proof fn a_runtime_save_keeps_history(s: SessionView, t: SessionView)
    ensures
        overlaid(s, Some(sidecar_of(t))).messages == s.messages,
        overlaid(s, Some(sidecar_of(t))).provider_transcript == s.provider_transcript,
        admission_of(overlaid(s, Some(sidecar_of(t)))) == admission_of(s),
        sidecar_of(overlaid(s, Some(sidecar_of(t)))).metadata == t.metadata,
        overlaid(s, Some(sidecar_of(t))) == (SessionView {
            messages: s.messages,
            provider_transcript: s.provider_transcript,
            runtime_metadata: with_admission(t.runtime_metadata, admission_of(s)),
            ..t
        }),
{
    assert(overlaid(s, Some(sidecar_of(t))) =~= (SessionView {
        messages: s.messages,
        provider_transcript: s.provider_transcript,
        runtime_metadata: with_admission(t.runtime_metadata, admission_of(s)),
        ..t
    }));
}

/// A sidecar never shows history, transcript or admission of its own, so a crash between the
/// two writes of a full save cannot show a message's bookkeeping without the message.
pub proof fn a_sidecar_holds_no_history(s: SessionView)
    ensures
        sidecar_of(s).messages.len() == 0,
        sidecar_of(s).provider_transcript.len() == 0,
        admission_of(sidecar_of(s)) is None,
        sidecar_of(sidecar_of(s)) == sidecar_of(s),
        sidecar_of(s).task_list == s.task_list,
        sidecar_of(s).task_generation() == s.task_generation(),
{
    assert(sidecar_of(sidecar_of(s)) =~= sidecar_of(s));
}

/// What a load gives never keeps the token budget of a root.
pub proof fn loads_drop_a_root_budget(
    id: Seq<char>,
    indexed: bool,
    main: SessionFile,
    side: SessionFile,
    default_id: Seq<char>,
)
    requires
        loaded_session(id, indexed, main, side, default_id) is Ok,
        loaded_session(id, indexed, main, side, default_id)->Ok_0 is Some,
    ensures
        ({
            let s = loaded_session(id, indexed, main, side, default_id)->Ok_0->0;
            s.kind == SessionKind::Root ==> s.token_budget is None
        }),
{
}

/// The control plane of a root that stands at its place is read whether or not the index lists
/// it: a stale index hides no durable Tasks from a writer.
pub proof fn a_stale_index_hides_no_control_plane(
    id: Seq<char>,
    authority: Result<Option<SessionView>, ErrorView>,
    main_file: Probe,
    runtime_file: Probe,
    main: SessionFile,
    side: SessionFile,
    default_id: Seq<char>,
)
    requires
        paths::id_check(id) is Ok,
        !(main_file is Missing) || !(runtime_file is Missing),
    ensures
        control_plane(
            id,
            authority,
            place_of(id, None, main_file, runtime_file),
            main,
            side,
            default_id,
        ) == control_plane(
            id,
            authority,
            PlaceView::Listed(paths::root_path(id)),
            main,
            side,
            default_id,
        ),
{
}

/// A migration writes nothing for a session of a deleted root.
pub proof fn a_migration_spares_deleted_roots(
    main: SessionFile,
    live: Result<bool, ErrorView>,
    default_id: Seq<char>,
)
    requires
        live != Ok::<bool, ErrorView>(true),
        main is Parsed,
    ensures
        migration_of(false, main, live, default_id) is Err,
{
}

/// Whether `v` reads as the control plane `t` over the history `m`: messages, native transcript and
/// inbox admission are those of `m`, every other field is that of `t`, but for the token budget,
/// which a root has not.
pub open spec fn reads_over(v: SessionView, m: SessionView, t: SessionView) -> bool {
    &&& v.messages == m.messages
    &&& v.provider_transcript == m.provider_transcript
    &&& t.kind == SessionKind::Root ==> v.token_budget is None
    &&& t.kind == SessionKind::Child ==> v.token_budget == t.token_budget
    &&& (SessionView {
        messages: t.messages,
        provider_transcript: t.provider_transcript,
        token_budget: t.token_budget,
        runtime_metadata: t.runtime_metadata,
        ..v
    }) == t
    &&& m.runtime_metadata is Some && m.runtime_metadata->0.session_inbox_admission is Some
        ==> v.runtime_metadata is Some && v.runtime_metadata->0.session_inbox_admission
        == m.runtime_metadata->0.session_inbox_admission
    &&& m.runtime_metadata is None || m.runtime_metadata->0.session_inbox_admission is None
        ==> v.runtime_metadata is None || v.runtime_metadata->0.session_inbox_admission is None
    &&& t.runtime_metadata is Some ==> v.runtime_metadata is Some && (SessionRuntimeMetadataView {
        session_inbox_admission: t.runtime_metadata->0.session_inbox_admission,
        ..v.runtime_metadata->0
    }) == t.runtime_metadata->0
    &&& t.runtime_metadata is None && v.runtime_metadata is Some ==> (SessionRuntimeMetadataView {
        session_inbox_admission: None,
        ..v.runtime_metadata->0
    }).empty()
}

/// Whether two files of a session agree on its authority: neither claims one, or both claim the
/// same one of the default Supervisor.
pub open spec fn authorities_agree(m: SessionView, t: SessionView, default_id: Seq<char>) -> bool {
    ||| m.authority_identity == SessionAuthorityIdentity::Ordinary && t.authority_identity
        == SessionAuthorityIdentity::Ordinary
    ||| supervisor::identity_check(m, default_id) is Ok && supervisor::identity_check(t, default_id)
        is Ok && m.authority_identity == t.authority_identity && m.id == t.id
}

/// Every load of the two files of a session gives the control plane of its runtime file over the
/// history of its session file, and does so wherever the two agree on its authority.
pub proof fn a_load_reads_the_sidecar_over_the_history(
    id: Seq<char>,
    kind: SessionKind,
    root: Seq<char>,
    main: Session,
    side: Session,
    default_id: Seq<char>,
)
    ensures
        ({
            let r = loaded_session(
                id,
                true,
                SessionFile::Parsed(main),
                SessionFile::Parsed(side),
                default_id,
            );
            &&& paths::id_check(id) is Ok && authorities_agree(main@, side@, default_id) ==> r is Ok
                && r->Ok_0 is Some
            &&& r is Ok && r->Ok_0 is Some ==> reads_over(r->Ok_0->0, main@, side@)
            &&& r is Ok ==> r->Ok_0 is Some
        }),
        ({
            let r = rebuilt_session(SessionFile::Parsed(main), SessionFile::Parsed(side), default_id);
            &&& authorities_agree(main@, side@, default_id) ==> r is Some && reads_over(
                r->0,
                main@,
                side@,
            )
        }),
        ({
            let r = authoritative_root(
                id,
                SessionFile::Parsed(main),
                SessionFile::Parsed(side),
                default_id,
            );
            &&& authorities_agree(main@, side@, default_id) && side@.id == id && side@.kind
                == SessionKind::Root ==> r is Ok
            &&& r is Ok ==> r->Ok_0 is Some && reads_over(r->Ok_0->0, main@, side@)
                && r->Ok_0->0.id == id && r->Ok_0->0.kind == SessionKind::Root
            &&& paths::id_check(id) is Ok ==> probed_root(
                id,
                SessionFile::Parsed(main),
                SessionFile::Parsed(side),
                default_id,
            ) == r
            &&& paths::id_check(id) is Err ==> probed_root(
                id,
                SessionFile::Parsed(main),
                SessionFile::Parsed(side),
                default_id,
            ) is Err
        }),
        ({
            let r = strict_session(
                id,
                kind,
                root,
                SessionFile::Parsed(main),
                SessionFile::Parsed(side),
                default_id,
            );
            &&& authorities_agree(main@, side@, default_id) && main@.id == id && side@.id == id
                && main@.kind == kind && side@.kind == kind && main@.root_session_id == root
                && side@.root_session_id == root && main@.parent_session_id
                == side@.parent_session_id ==> r is Ok && r->Ok_0 is Some && reads_over(
                r->Ok_0->0,
                main@,
                side@,
            )
            &&& r is Ok ==> r->Ok_0 is Some && r->Ok_0->0.id == id && r->Ok_0->0.kind == kind
                && r->Ok_0->0.root_session_id == root && r->Ok_0->0.messages == main@.messages
                && r->Ok_0->0.title == side@.title && r->Ok_0->0.task_list == side@.task_list
        }),
{
}

/// Without a runtime file that can be parsed, an ordinary load gives what the session file holds,
/// less a root's token budget; a strict one takes no damaged runtime file.
pub proof fn a_load_falls_back_to_the_session_file(
    id: Seq<char>,
    main: Session,
    side: SessionFile,
    default_id: Seq<char>,
)
    requires
        side is Missing || side is Corrupt,
        main@.authority_identity == SessionAuthorityIdentity::Ordinary,
    ensures
        ({
            let r = loaded_session(id, true, SessionFile::Parsed(main), side, default_id);
            paths::id_check(id) is Ok ==> r is Ok && r->Ok_0 is Some && (SessionView {
                token_budget: main@.token_budget,
                ..r->Ok_0->0
            }) == main@ && (main@.kind == SessionKind::Child ==> r->Ok_0->0 == main@)
        }),
        side is Corrupt ==> strict_session(
            main@.id,
            main@.kind,
            main@.root_session_id,
            SessionFile::Parsed(main),
            side,
            default_id,
        ) is Err,
        ({
            let r = rebuilt_session(SessionFile::Parsed(main), side, default_id);
            r is Some && (SessionView { token_budget: main@.token_budget, ..r->0 }) == main@
        }),
{
}

/// There is nothing to load where the index does not know a session or its session file is missing;
/// a damaged session file is a failure, and a rebuild passes it over.
pub proof fn a_load_needs_the_session_file(
    id: Seq<char>,
    kind: SessionKind,
    root: Seq<char>,
    main: SessionFile,
    side: SessionFile,
    default_id: Seq<char>,
)
    ensures
        paths::id_check(id) is Err ==> loaded_session(id, true, main, side, default_id) is Err,
        paths::id_check(id) is Ok ==> loaded_session(id, false, main, side, default_id) == Ok::<
            Option<SessionView>,
            ErrorView,
        >(None),
        paths::id_check(id) is Ok && main is Missing ==> loaded_session(
            id,
            true,
            main,
            side,
            default_id,
        ) == Ok::<Option<SessionView>, ErrorView>(None),
        main is Missing ==> authoritative_root(id, main, side, default_id) == Ok::<
            Option<SessionView>,
            ErrorView,
        >(None) && strict_session(id, kind, root, main, side, default_id) == Ok::<
            Option<SessionView>,
            ErrorView,
        >(None),
        main is Corrupt || main is Failed ==> loaded_session(id, true, main, side, default_id)
            is Err && authoritative_root(id, main, side, default_id) is Err && strict_session(
            id,
            kind,
            root,
            main,
            side,
            default_id,
        ) is Err,
        !(main is Parsed) ==> rebuilt_session(main, side, default_id) is None,
{
}

/// The control plane of a session is what its runtime file holds, or else what its session file
/// holds without the messages, in either case less a root's token budget.
pub proof fn a_control_plane_is_the_sidecar(
    id: Seq<char>,
    authority: Result<Option<SessionView>, ErrorView>,
    place: PlaceView,
    main: Session,
    side: Session,
    default_id: Seq<char>,
)
    requires
        paths::id_check(id) is Ok,
        id != default_id,
        !(place is Nowhere),
        main@.authority_identity == SessionAuthorityIdentity::Ordinary,
        side@.authority_identity == SessionAuthorityIdentity::Ordinary,
    ensures
        ({
            let r = control_plane(
                id,
                authority,
                place,
                SessionFile::Parsed(main),
                SessionFile::Parsed(side),
                default_id,
            );
            &&& r is Ok && r->Ok_0 is Some
            &&& (SessionView { token_budget: side@.token_budget, ..r->Ok_0->0 }) == side@
            &&& side@.kind == SessionKind::Root ==> r->Ok_0->0.token_budget is None
        }),
        ({
            let r = control_plane(
                id,
                authority,
                place,
                SessionFile::Parsed(main),
                SessionFile::Missing,
                default_id,
            );
            &&& r is Ok && r->Ok_0 is Some
            &&& r->Ok_0->0.messages.len() == 0
            &&& (SessionView {
                token_budget: main@.token_budget,
                messages: main@.messages,
                ..r->Ok_0->0
            }) == main@
        }),
        control_plane(
            id,
            authority,
            PlaceView::Nowhere,
            SessionFile::Parsed(main),
            SessionFile::Parsed(side),
            default_id,
        ) == Ok::<Option<SessionView>, ErrorView>(None),
{
}

/// The control plane of the default Supervisor is its authority, where it has one, and fails with
/// it.
pub proof fn the_supervisor_is_read_by_authority(
    authority: Result<Option<SessionView>, ErrorView>,
    place: PlaceView,
    main: SessionFile,
    side: SessionFile,
    default_id: Seq<char>,
)
    requires
        paths::id_check(default_id) is Ok,
        authority is Err || authority->Ok_0 is Some,
    ensures
        control_plane(default_id, authority, place, main, side, default_id) == authority,
{
}

/// The runtime file of a session holds all of it but messages, native transcript and inbox
/// admission.
pub proof fn a_sidecar_holds_the_rest(s: SessionView)
    ensures
        ({
            let t = sidecar_of(s);
            &&& t.messages.len() == 0 && t.provider_transcript.len() == 0
            &&& (SessionView {
                messages: s.messages,
                provider_transcript: s.provider_transcript,
                runtime_metadata: s.runtime_metadata,
                ..t
            }) == s
            &&& t.runtime_metadata is Some <==> s.runtime_metadata is Some
            &&& s.runtime_metadata is Some ==> t.runtime_metadata->0.session_inbox_admission is None
                && (SessionRuntimeMetadataView {
                session_inbox_admission: s.runtime_metadata->0.session_inbox_admission,
                ..t.runtime_metadata->0
            }) == s.runtime_metadata->0
        }),
{
}

/// Loading the files of a full save of `s` gives `s`, and loading them after a later save of the
/// control plane of `t` gives the control plane of `t` over the history of `s`.
pub proof fn what_was_saved_is_loaded(
    id: Seq<char>,
    s: SessionView,
    t: SessionView,
    main: Session,
    first_side: Session,
    later_side: Session,
    default_id: Seq<char>,
)
    requires
        paths::id_check(id) is Ok,
        main@ == s,
        first_side@ == sidecar_of(s),
        later_side@ == sidecar_of(t),
        authorities_agree(s, s, default_id),
        authorities_agree(s, t, default_id),
    ensures
        ({
            let r = loaded_session(
                id,
                true,
                SessionFile::Parsed(main),
                SessionFile::Parsed(first_side),
                default_id,
            );
            &&& r is Ok && r->Ok_0 is Some
            &&& (SessionView { token_budget: s.token_budget, ..r->Ok_0->0 }) == s
        }),
        ({
            let r = loaded_session(
                id,
                true,
                SessionFile::Parsed(main),
                SessionFile::Parsed(later_side),
                default_id,
            );
            &&& r is Ok && r->Ok_0 is Some
            &&& reads_over(r->Ok_0->0, s, t)
            &&& r->Ok_0->0 == overlaid(s, Some(sidecar_of(t))).without_stale_budget()
        }),
{
    a_full_save_reads_back(s);
    a_runtime_save_keeps_history(s, t);
    a_load_reads_the_sidecar_over_the_history(id, s.kind, s.root_session_id, main, first_side, default_id);
    a_load_reads_the_sidecar_over_the_history(id, s.kind, s.root_session_id, main, later_side, default_id);
}

/// A migration writes the runtime file of every ordinary, live session that has none, and leaves a
/// session that has one, or no session file that can be parsed, alone.
pub proof fn a_migration_backfills_what_is_missing(
    main: Session,
    file: SessionFile,
    live: Result<bool, ErrorView>,
    default_id: Seq<char>,
)
    ensures
        main@.authority_identity == SessionAuthorityIdentity::Ordinary ==> ({
            let r = migration_of(false, SessionFile::Parsed(main), Ok(true), default_id);
            &&& r is Ok && r->Ok_0 is Some
            &&& r->Ok_0->0.messages.len() == 0 && r->Ok_0->0.provider_transcript.len() == 0
            &&& (SessionView {
                messages: main@.messages,
                provider_transcript: main@.provider_transcript,
                runtime_metadata: main@.runtime_metadata,
                ..r->Ok_0->0
            }) == main@
        }),
        main@.authority_identity != SessionAuthorityIdentity::Ordinary ==> migration_of(
            false,
            SessionFile::Parsed(main),
            live,
            default_id,
        ) is Err,
        migration_of(true, file, live, default_id) == Ok::<Option<SessionView>, ErrorView>(None),
        file is Missing || file is Corrupt ==> migration_of(false, file, live, default_id) == Ok::<
            Option<SessionView>,
            ErrorView,
        >(None),
{
}

/// A session stands where the index lists it; one that is not listed stands at the place of a root
/// of its id exactly where either file is there or cannot be told to be missing.
pub proof fn a_session_stands_where_its_files_are(
    id: Seq<char>,
    rel: Seq<char>,
    main_file: Probe,
    runtime_file: Probe,
)
    ensures
        place_of(id, Some(rel), main_file, runtime_file) == PlaceView::Listed(rel),
        paths::id_check(id) is Ok && (!(main_file is Missing) || !(runtime_file is Missing))
            ==> place_of(id, None, main_file, runtime_file) == PlaceView::Unlisted(
            "sessions/"@ + id,
        ),
        main_file is Missing && runtime_file is Missing ==> place_of(
            id,
            None,
            main_file,
            runtime_file,
        ) == PlaceView::Nowhere,
        paths::id_check(id) is Err ==> place_of(id, None, main_file, runtime_file)
            == PlaceView::Nowhere,
{
}

/// Each place of a session is told from the others, with its directory.
pub proof fn places_are_told_apart(p: SessionPlace)
    ensures
        p@ is Listed <==> p is Listed,
        p@ is Unlisted <==> p is Unlisted,
        p@ is Nowhere <==> p is Nowhere,
        p is Listed ==> p@->Listed_0 == p->Listed_0@,
        p is Unlisted ==> p@->Unlisted_0 == p->Unlisted_0@,
{
}

/// A load fails by the kind of what stands in its way: a session file that cannot be read as one is a
/// failure of no special kind for an ordinary load, and invalid data for a strict one, as is every
/// identity that does not belong at its place; a failure of the disk is answered as it is.
pub proof fn how_a_load_fails(
    id: Seq<char>,
    kind: SessionKind,
    root: Seq<char>,
    main: Session,
    side: Session,
    t: String,
    e: StorageError,
    file: SessionFile,
    default_id: Seq<char>,
)
    requires
        paths::id_check(id) is Ok,
        id != default_id,
    ensures
        loaded_session(id, true, SessionFile::Failed(e), file, default_id) == Err::<
            Option<SessionView>,
            ErrorView,
        >(e@),
        loaded_session(id, true, SessionFile::Corrupt(t), file, default_id) is Err,
        loaded_session(id, true, SessionFile::Corrupt(t), file, default_id)->Err_0.kind
            == ErrorKind::Other,
        strict_session(id, kind, root, SessionFile::Missing, file, default_id) == Ok::<
            Option<SessionView>,
            ErrorView,
        >(None),
        strict_session(id, kind, root, SessionFile::Failed(e), file, default_id) == Err::<
            Option<SessionView>,
            ErrorView,
        >(e@),
        strict_session(id, kind, root, SessionFile::Corrupt(t), file, default_id) is Err,
        strict_session(id, kind, root, SessionFile::Corrupt(t), file, default_id)->Err_0.kind
            == ErrorKind::InvalidData,
        main@.id != id || main@.kind != kind ==> ({
            let r = strict_session(id, kind, root, SessionFile::Parsed(main), file, default_id);
            r is Err && r->Err_0.kind == ErrorKind::InvalidData
        }),
        main@.id == id && main@.kind == kind && main@.root_session_id == root && root.len() > 0 ==> ({
            let strict = |f: SessionFile|
                strict_session(id, kind, root, SessionFile::Parsed(main), f, default_id);
            &&& strict(SessionFile::Failed(e)) == Err::<Option<SessionView>, ErrorView>(e@)
            &&& strict(SessionFile::Corrupt(t)) is Err && strict(SessionFile::Corrupt(t))->Err_0.kind
                == ErrorKind::InvalidData
            &&& side@.id != id || side@.kind != kind || side@.parent_session_id
                != main@.parent_session_id ==> strict(SessionFile::Parsed(side)) is Err && strict(
                SessionFile::Parsed(side),
            )->Err_0.kind == ErrorKind::InvalidData
        }),
        authoritative_root(id, SessionFile::Missing, file, default_id) == Ok::<
            Option<SessionView>,
            ErrorView,
        >(None),
        authoritative_root(id, SessionFile::Failed(e), file, default_id) == Err::<
            Option<SessionView>,
            ErrorView,
        >(e@),
        authoritative_root(id, SessionFile::Corrupt(t), file, default_id) is Err,
        authoritative_root(id, SessionFile::Corrupt(t), file, default_id)->Err_0.kind
            == ErrorKind::Other,
        migration_of(false, SessionFile::Failed(e), Ok(true), default_id) == Err::<
            Option<SessionView>,
            ErrorView,
        >(e@),
{
}

/// A root that is read as an authority is one of that very id; anything else that was read fails. A
/// runtime sidecar is never made up for a Supervisor or for a root that was deleted.
pub proof fn what_an_authority_is_read_from(
    id: Seq<char>,
    main: Session,
    file: SessionFile,
    default_id: Seq<char>,
)
    ensures
        ({
            let r = authoritative_root(id, SessionFile::Parsed(main), file, default_id);
            r is Ok ==> r->Ok_0 is Some && r->Ok_0->0.id == id && r->Ok_0->0.kind
                == SessionKind::Root && r->Ok_0->0.messages == main@.messages
        }),
        supervisor::identity_check(main@, default_id) is Ok && main@.authority_identity
            != SessionAuthorityIdentity::Ordinary ==> ({
            let r = migration_of(false, SessionFile::Parsed(main), Ok(true), default_id);
            r is Err && r->Err_0.kind == ErrorKind::InvalidData
        }),
        supervisor::identity_check(main@, default_id) is Ok ==> ({
            let r = migration_of(false, SessionFile::Parsed(main), Ok(false), default_id);
            r is Err && r->Err_0.kind == ErrorKind::InvalidData
        }),
{
}

} // verus!
