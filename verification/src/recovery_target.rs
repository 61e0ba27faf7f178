//! Finding the session that an undo record speaks of, without trusting the index, and checking
//! its place before it is written.
use crate::error::{ErrorKind, ErrorView, StorageError};
use crate::error;
use crate::load::{overlay_runtime_sidecar, read_runtime_sidecar_at};
use crate::load;
use crate::paths::validate_session_id;
use crate::paths;
use crate::probe::{MainProbe, Probe, SessionFile};
use crate::session::{Session, SessionKind, SessionView};
use crate::session;
use crate::supervisor::validate_overlay;
use crate::supervisor;
use crate::task_journal::{apply_undo, TaskControlPlaneUndo};
use crate::task_journal;
use crate::text::{decimal, join2, join3, join4, join5, same_option_text, same_text};
use crate::text;
use vstd::prelude::*;

verus! {

// ------------------------------------------------------------------- file kinds

/// Whether a real directory stands at `path`.
pub open spec fn directory_check(path: Seq<char>, p: Probe) -> Result<bool, ErrorView> {
    match p {
        Probe::Missing => Ok(false),
        Probe::Failed(e) => Err(e@),
        Probe::Directory => Ok(true),
        _ => Err(
            error::plain_error(
                ErrorKind::InvalidData,
                "runtime Task recovery candidate is not a real directory: "@ + path,
            ),
        ),
    }
}

/// Whether a real directory stands at `path`; anything else there is refused.
pub fn runtime_task_recovery_real_directory(path: &str, p: &Probe) -> (r: Result<
    bool,
    StorageError,
>)
    ensures
        error::plain_view(r) == directory_check(path@, *p),
{
    match p {
        Probe::Missing => Ok(false),
        Probe::Failed(e) => Err(e.clone()),
        Probe::Directory => Ok(true),
        _ => Err(
            StorageError::new(
                ErrorKind::InvalidData,
                join2("runtime Task recovery candidate is not a real directory: ", path),
            ),
        ),
    }
}

/// Whether a regular file stands at `path`.
pub open spec fn file_check(path: Seq<char>, p: Probe) -> Result<bool, ErrorView> {
    match p {
        Probe::Missing => Ok(false),
        Probe::Failed(e) => Err(e@),
        Probe::File => Ok(true),
        _ => Err(
            error::plain_error(
                ErrorKind::InvalidData,
                "runtime Task recovery candidate is not a real file: "@ + path,
            ),
        ),
    }
}

/// Whether a regular file stands at `path`; anything else there is refused.
pub fn runtime_task_recovery_real_file(path: &str, p: &Probe) -> (r: Result<bool, StorageError>)
    ensures
        error::plain_view(r) == file_check(path@, *p),
{
    match p {
        Probe::Missing => Ok(false),
        Probe::Failed(e) => Err(e.clone()),
        Probe::File => Ok(true),
        _ => Err(
            StorageError::new(
                ErrorKind::InvalidData,
                join2("runtime Task recovery candidate is not a real file: ", path),
            ),
        ),
    }
}

// --------------------------------------------------------------------- identity

/// The name of a session kind.
pub open spec fn kind_name(k: SessionKind) -> Seq<char> {
    match k {
        SessionKind::Root => "Root"@,
        SessionKind::Child => "Child"@,
    }
}

fn kind_text(k: SessionKind) -> (r: &'static str)
    ensures
        r@ == kind_name(k),
{
    match k {
        SessionKind::Root => "Root",
        SessionKind::Child => "Child",
    }
}

/// What checking a session against its place gives.
pub open spec fn place_check(
    s: SessionView,
    id: Seq<char>,
    kind: SessionKind,
    root: Seq<char>,
) -> Result<(), ErrorView> {
    if s.id == id && s.kind == kind && s.root_session_id == root {
        Ok(())
    } else {
        Err(
            error::plain_error(
                ErrorKind::InvalidData,
                "runtime Task recovery identity mismatch for "@ + id + ": found id="@ + s.id
                    + ", kind="@ + kind_name(s.kind) + ", root="@ + s.root_session_id,
            ),
        )
    }
}

/// Rejects a session whose identity does not belong at its place.
pub fn validate_runtime_task_recovery_identity(
    session: &Session,
    session_id: &str,
    expected_kind: SessionKind,
    expected_root_id: &str,
) -> (r: Result<(), StorageError>)
    ensures
        error::plain_view(r) == place_check(session@, session_id@, expected_kind, expected_root_id@),
{
    if !same_text(&session.id, session_id) || session.kind != expected_kind || !same_text(
        &session.root_session_id,
        expected_root_id,
    ) {
        let head = join4(
            "runtime Task recovery identity mismatch for ",
            session_id,
            ": found id=",
            &session.id,
        );
        let message = join5(
            &head,
            ", kind=",
            kind_text(session.kind),
            ", root=",
            &session.root_session_id,
        );
        return Err(StorageError::new(ErrorKind::InvalidData, message));
    }
    Ok(())
}

/// The session that a directory holds at its proper place, if any.
pub open spec fn main_at(
    directory: Seq<char>,
    p: MainProbe,
    id: Seq<char>,
    kind: SessionKind,
    root: Seq<char>,
) -> Result<Option<SessionView>, ErrorView> {
    let path = directory + "/session.json"@;
    match directory_check(directory, p.directory) {
        Err(e) => Err(e),
        Ok(false) => Ok(None),
        Ok(true) => match file_check(path, p.file) {
            Err(e) => Err(e),
            Ok(false) => Ok(None),
            Ok(true) => match p.content {
                SessionFile::Failed(e) => Err(e@),
                SessionFile::Missing => Ok(None),
                SessionFile::Corrupt(t) => Err(
                    error::plain_error(
                        ErrorKind::InvalidData,
                        "invalid authoritative session.json for runtime Task recovery at "@ + path
                            + ": "@ + t@,
                    ),
                ),
                SessionFile::Parsed(s) => match place_check(s@, id, kind, root) {
                    Err(e) => Err(e),
                    Ok(_) => Ok(Some(s@)),
                },
            },
        },
    }
}

/// Takes the session that a directory holds at its proper place, if any.
pub fn read_runtime_task_recovery_main_at(
    abs_dir: &str,
    probe: MainProbe,
    session_id: &str,
    expected_kind: SessionKind,
    expected_root_id: &str,
) -> (r: Result<Option<Session>, StorageError>)
    ensures
        task_journal::load_view(r) == main_at(abs_dir@, probe, session_id@, expected_kind, expected_root_id@),
{
    match runtime_task_recovery_real_directory(abs_dir, &probe.directory) {
        Err(e) => {
            return Err(e);
        },
        Ok(there) => {
            if !there {
                return Ok(None);
            }
        },
    }
    let path = join2(abs_dir, "/session.json");
    match runtime_task_recovery_real_file(&path, &probe.file) {
        Err(e) => {
            return Err(e);
        },
        Ok(there) => {
            if !there {
                return Ok(None);
            }
        },
    }
    match probe.content {
        SessionFile::Failed(e) => Err(e),
        SessionFile::Missing => Ok(None),
        SessionFile::Corrupt(t) => Err(
            StorageError::new(
                ErrorKind::InvalidData,
                join4(
                    "invalid authoritative session.json for runtime Task recovery at ",
                    &path,
                    ": ",
                    &t,
                ),
            ),
        ),
        SessionFile::Parsed(s) => {
            match validate_runtime_task_recovery_identity(
                &s,
                session_id,
                expected_kind,
                expected_root_id,
            ) {
                Err(e) => Err(e),
                Ok(_) => Ok(Some(s)),
            }
        },
    }
}

// ------------------------------------------------------------------------ search

/// One entry of the sessions directory, with what was found below it.
pub struct RootScan {
    /// The entry's name, or none where it is not text.
    pub name: Option<String>,
    pub is_directory: bool,
    /// What stands at `children` below the entry.
    pub children: Probe,
    /// What was found for the wanted id below `children`.
    pub child: MainProbe,
    /// What was found of the entry itself as a root session.
    pub root: MainProbe,
}

/// One step of walking the sessions directory.
pub enum ScanItem {
    /// Walking failed here.
    Failed(StorageError),
    Entry(RootScan),
}

/// A found session with its directory.
pub struct Candidate {
    pub directory: String,
    pub session: Session,
}

/// What a [`Candidate`] holds.
#[verifier::ext_equal]
pub struct CandidateView {
    pub directory: Seq<char>,
    pub session: SessionView,
}

impl View for Candidate {
    type V = CandidateView;

    open spec fn view(&self) -> CandidateView {
        CandidateView { directory: self.directory@, session: self.session@ }
    }
}

/// Directory of a root below the sessions directory.
pub open spec fn root_dir(sessions: Seq<char>, root: Seq<char>) -> Seq<char> {
    sessions + "/"@ + root
}

/// Directory of a child below the sessions directory.
pub open spec fn child_dir(sessions: Seq<char>, root: Seq<char>, id: Seq<char>) -> Seq<char> {
    sessions + "/"@ + root + "/children/"@ + id
}

/// What one step of the walk gives: a child session, nothing, or a failure.
pub open spec fn scanned(
    sessions: Seq<char>,
    id: Seq<char>,
    item: ScanItem,
) -> Result<Option<CandidateView>, ErrorView> {
    match item {
        ScanItem::Failed(e) => Err(e@),
        ScanItem::Entry(entry) => if !entry.is_directory || entry.name is None || !paths::valid_id(
            entry.name->0@,
        ) {
            Ok(None)
        } else {
            let root = entry.name->0@;
            match entry.children {
                Probe::Failed(e) => Err(e@),
                Probe::Directory => match main_at(
                    child_dir(sessions, root, id),
                    entry.child,
                    id,
                    SessionKind::Child,
                    root,
                ) {
                    Err(e) => Err(e),
                    Ok(None) => Ok(None),
                    Ok(Some(s)) => match main_at(
                        root_dir(sessions, root),
                        entry.root,
                        root,
                        SessionKind::Root,
                        root,
                    ) {
                        Err(e) => Err(e),
                        Ok(None) => Err(
                            error::plain_error(
                                ErrorKind::InvalidData,
                                "runtime Task recovery child "@ + id
                                    + " has no authoritative root "@ + root,
                            ),
                        ),
                        Ok(Some(_)) => Ok(
                            Some(
                                CandidateView {
                                    directory: child_dir(sessions, root, id),
                                    session: s,
                                },
                            ),
                        ),
                    },
                },
                _ => Ok(None),
            }
        },
    }
}

/// The child sessions that a walk finds, in its order, up to the first failure.
pub open spec fn walked(
    sessions: Seq<char>,
    id: Seq<char>,
    items: Seq<ScanItem>,
) -> Result<Seq<CandidateView>, ErrorView>
    decreases items.len(),
{
    if items.len() == 0 {
        Ok(Seq::empty())
    } else {
        match walked(sessions, id, items.drop_last()) {
            Err(e) => Err(e),
            Ok(found) => match scanned(sessions, id, items.last()) {
                Err(e) => Err(e),
                Ok(None) => Ok(found),
                Ok(Some(c)) => Ok(found.push(c)),
            },
        }
    }
}

/// The view of a search.
pub open spec fn candidate_view(
    r: Result<Option<Candidate>, StorageError>,
) -> Result<Option<CandidateView>, ErrorView> {
    match r {
        Ok(Some(c)) => Ok(Some(c@)),
        Ok(None) => Ok(None),
        Err(e) => Err(e@),
    }
}

/// What the search for a session gives: it has to be found at one place only.
pub open spec fn recovery_target(
    sessions: Seq<char>,
    id: Seq<char>,
    sessions_probe: Probe,
    root: MainProbe,
    items: Option<Seq<ScanItem>>,
) -> Result<Option<CandidateView>, ErrorView> {
    if paths::id_check(id) is Err {
        Err(paths::id_check(id)->Err_0)
    } else {
        match directory_check(sessions, sessions_probe) {
            Err(e) => Err(e),
            Ok(false) => Err(
                error::plain_error(
                    ErrorKind::NotFound,
                    "runtime Task recovery sessions directory is missing"@,
                ),
            ),
            Ok(true) => match main_at(root_dir(sessions, id), root, id, SessionKind::Root, id) {
                Err(e) => Err(e),
                Ok(at_root) => {
                    let first = match at_root {
                        Some(s) => Seq::empty().push(
                            CandidateView { directory: root_dir(sessions, id), session: s },
                        ),
                        None => Seq::<CandidateView>::empty(),
                    };
                    match walked(
                        sessions,
                        id,
                        match items {
                            Some(items) => items,
                            None => Seq::empty(),
                        },
                    ) {
                        Err(e) => Err(e),
                        Ok(children) => {
                            let found = first + children;
                            if found.len() == 0 {
                                Ok(None)
                            } else if found.len() == 1 {
                                Ok(Some(found[0]))
                            } else {
                                Err(
                                    error::plain_error(
                                        ErrorKind::InvalidData,
                                        "runtime Task recovery target "@ + id
                                            + " is ambiguous across "@ + text::decimal_text(found.len())
                                            + " authoritative directories"@,
                                    ),
                                )
                            }
                        },
                    }
                },
            },
        }
    }
}

fn scan(sessions: &str, id: &str, item: ScanItem) -> (r: Result<Option<Candidate>, StorageError>)
    ensures
        candidate_view(r) == scanned(sessions@, id@, item),
{
    match item {
        ScanItem::Failed(e) => Err(e),
        ScanItem::Entry(entry) => {
            let root = match entry.name {
                Some(n) => n,
                None => {
                    return Ok(None);
                },
            };
            if !entry.is_directory {
                return Ok(None);
            }
            match validate_session_id(&root) {
                Err(_) => {
                    return Ok(None);
                },
                Ok(_) => {},
            }
            match entry.children {
                Probe::Failed(e) => {
                    return Err(e);
                },
                Probe::Directory => {},
                _ => {
                    return Ok(None);
                },
            }
            let at_root = join3(sessions, "/", &root);
            let at_child = join3(&at_root, "/children/", id);
            let session = match read_runtime_task_recovery_main_at(
                &at_child,
                entry.child,
                id,
                SessionKind::Child,
                &root,
            ) {
                Err(e) => {
                    return Err(e);
                },
                Ok(None) => {
                    return Ok(None);
                },
                Ok(Some(s)) => s,
            };
            match read_runtime_task_recovery_main_at(
                &at_root,
                entry.root,
                &root,
                SessionKind::Root,
                &root,
            ) {
                Err(e) => Err(e),
                Ok(None) => Err(
                    StorageError::new(
                        ErrorKind::InvalidData,
                        join4(
                            "runtime Task recovery child ",
                            id,
                            " has no authoritative root ",
                            &root,
                        ),
                    ),
                ),
                Ok(Some(_)) => Ok(Some(Candidate { directory: at_child, session })),
            }
        },
    }
}

proof fn lemma_walk_fails(sessions: Seq<char>, id: Seq<char>, items: Seq<ScanItem>, k: int)
    requires
        0 <= k <= items.len(),
        walked(sessions, id, items.take(k)) is Err,
    ensures
        walked(sessions, id, items) == walked(sessions, id, items.take(k)),
    decreases items.len(),
{
    if k == items.len() {
        assert(items.take(k) =~= items);
    } else {
        assert(items.drop_last().take(k) =~= items.take(k));
        lemma_walk_fails(sessions, id, items.drop_last(), k);
    }
}

/// Finds the session that an undo record speaks of, as a root or as the child of one root.
/// `items` is the walk over the sessions directory, or none where the directory has gone.
pub fn load_runtime_task_recovery_target(
    sessions_dir: &str,
    session_id: &str,
    sessions_probe: &Probe,
    root: MainProbe,
    items: Option<Vec<ScanItem>>,
) -> (r: Result<Option<Candidate>, StorageError>)
    ensures
        candidate_view(r) == recovery_target(
            sessions_dir@,
            session_id@,
            *sessions_probe,
            root,
            match items {
                Some(v) => Some(v@),
                None => None,
            },
        ),
{
    match validate_session_id(session_id) {
        Err(e) => {
            return Err(e);
        },
        Ok(_) => {},
    }
    match runtime_task_recovery_real_directory(sessions_dir, sessions_probe) {
        Err(e) => {
            return Err(e);
        },
        Ok(there) => {
            if !there {
                return Err(
                    StorageError::new(
                        ErrorKind::NotFound,
                        "runtime Task recovery sessions directory is missing".to_owned(),
                    ),
                );
            }
        },
    }
    let at_root = join3(sessions_dir, "/", session_id);
    let mut found: Vec<Candidate> = Vec::new();
    match read_runtime_task_recovery_main_at(
        &at_root,
        root,
        session_id,
        SessionKind::Root,
        session_id,
    ) {
        Err(e) => {
            return Err(e);
        },
        Ok(None) => {},
        Ok(Some(session)) => {
            found.push(Candidate { directory: at_root, session });
        },
    }
    let ghost first = crate::session::views(found@);
    let mut rest: Vec<ScanItem> = match items {
        Some(v) => v,
        None => Vec::new(),
    };
    let ghost all = rest@;
    let ghost mut done: int = 0;
    assert(all.take(0) =~= Seq::<ScanItem>::empty());
    assert(crate::session::views(found@) =~= first + Seq::<CandidateView>::empty());
    while rest.len() > 0
        invariant
            0 <= done <= all.len(),
            rest@ == all.subrange(done, all.len() as int),
            walked(sessions_dir@, session_id@, all.take(done)) is Ok,
            crate::session::views(found@) == first + walked(
                sessions_dir@,
                session_id@,
                all.take(done),
            )->Ok_0,
            all == match items {
                Some(v) => v@,
                None => Seq::<ScanItem>::empty(),
            },
            first == match main_at(
                root_dir(sessions_dir@, session_id@),
                root,
                session_id@,
                SessionKind::Root,
                session_id@,
            )->Ok_0 {
                Some(s) => Seq::<CandidateView>::empty().push(
                    CandidateView { directory: root_dir(sessions_dir@, session_id@), session: s },
                ),
                None => Seq::<CandidateView>::empty(),
            },
            main_at(
                root_dir(sessions_dir@, session_id@),
                root,
                session_id@,
                SessionKind::Root,
                session_id@,
            ) is Ok,
            paths::id_check(session_id@) is Ok,
            directory_check(sessions_dir@, *sessions_probe) == Ok::<bool, ErrorView>(true),
        decreases rest.len(),
    {
        let item = rest.remove(0);
        proof {
            assert(item == all[done]);
            assert(all.take(done + 1).drop_last() =~= all.take(done));
            assert(rest@ =~= all.subrange(done + 1, all.len() as int));
        }
        match scan(sessions_dir, session_id, item) {
            Err(e) => {
                proof {
                    lemma_walk_fails(sessions_dir@, session_id@, all, done + 1);
                }
                return Err(e);
            },
            Ok(None) => {},
            Ok(Some(c)) => {
                let ghost before = found@;
                found.push(c);
                assert(crate::session::views(found@) =~= crate::session::views(before).push(c@));
            },
        }
        proof {
            done = done + 1;
        }
    }
    assert(all.take(all.len() as int) =~= all);
    assert(done == all.len());
    let n: usize = found.len();
    if n > 1 {
        let message = join5(
            "runtime Task recovery target ",
            session_id,
            " is ambiguous across ",
            &decimal(n as u64),
            " authoritative directories",
        );
        return Err(StorageError::new(ErrorKind::InvalidData, message));
    }
    let ghost views_found = crate::session::views(found@);
    let last = found.pop();
    assert(last is Some ==> last->0@ == views_found[0]);
    Ok(last)
}

// ---------------------------------------------------------------- the control plane

/// The control plane that an undo works on.
pub open spec fn recovery_control_plane(
    target: Result<Option<CandidateView>, ErrorView>,
    runtime_probe: Probe,
    runtime: SessionFile,
    id: Seq<char>,
    default_id: Seq<char>,
) -> Result<Option<CandidateView>, ErrorView> {
    match target {
        Err(e) => Err(e),
        Ok(None) => Ok(None),
        Ok(Some(c)) => match file_check(c.directory + "/runtime.json"@, runtime_probe) {
            Err(e) => Err(e),
            Ok(there) => {
                let read = if there {
                    load::sidecar_read(runtime, default_id)
                } else {
                    Ok(None)
                };
                match read {
                    Err(e) => Err(e),
                    Ok(side) => {
                        let placed = match side {
                            None => Ok(()),
                            Some(s) => match place_check(
                                s,
                                id,
                                c.session.kind,
                                c.session.root_session_id,
                            ) {
                                Err(e) => Err(e),
                                Ok(_) => if s.parent_session_id != c.session.parent_session_id {
                                    Err(
                                        error::plain_error(
                                            ErrorKind::InvalidData,
                                            "runtime Task recovery parent identity mismatch for "@
                                                + id,
                                        ),
                                    )
                                } else {
                                    Ok(())
                                },
                            },
                        };
                        match placed {
                            Err(e) => Err(e),
                            Ok(_) => match supervisor::overlay_check(c.session, side, default_id) {
                                Err(e) => Err(e),
                                Ok(_) => Ok(
                                    Some(
                                        CandidateView {
                                            directory: c.directory,
                                            session: load::overlaid(
                                                c.session,
                                                side,
                                            ).without_messages().without_stale_budget(),
                                        },
                                    ),
                                ),
                            },
                        }
                    },
                }
            },
        },
    }
}

/// Takes the control plane that an undo works on.
pub fn load_runtime_task_recovery_control_plane(
    target: Result<Option<Candidate>, StorageError>,
    runtime_probe: &Probe,
    runtime: SessionFile,
    session_id: &str,
    default_id: &str,
) -> (r: Result<Option<Candidate>, StorageError>)
    ensures
        candidate_view(r) == recovery_control_plane(
            candidate_view(target),
            *runtime_probe,
            runtime,
            session_id@,
            default_id@,
        ),
{
    let c = match target {
        Err(e) => {
            return Err(e);
        },
        Ok(None) => {
            return Ok(None);
        },
        Ok(Some(c)) => c,
    };
    let path = join2(&c.directory, "/runtime.json");
    let there = match runtime_task_recovery_real_file(&path, runtime_probe) {
        Err(e) => {
            return Err(e);
        },
        Ok(t) => t,
    };
    let side = if there {
        match read_runtime_sidecar_at(runtime, default_id) {
            Err(e) => {
                return Err(e);
            },
            Ok(s) => s,
        }
    } else {
        None
    };
    match &side {
        None => {},
        Some(s) => {
            match validate_runtime_task_recovery_identity(
                s,
                session_id,
                c.session.kind,
                &c.session.root_session_id,
            ) {
                Err(e) => {
                    return Err(e);
                },
                Ok(_) => {},
            }
            if !same_option_text(&s.parent_session_id, &c.session.parent_session_id) {
                return Err(
                    StorageError::new(
                        ErrorKind::InvalidData,
                        join2("runtime Task recovery parent identity mismatch for ", session_id),
                    ),
                );
            }
        },
    }
    match validate_overlay(&c.session, &side, default_id) {
        Err(e) => {
            return Err(e);
        },
        Ok(_) => {},
    }
    let mut session = overlay_runtime_sidecar(c.session, side);
    session.clear_messages();
    session.clear_stale_root_token_budget();
    Ok(Some(Candidate { directory: c.directory, session }))
}

// ------------------------------------------------------------------ the write target

/// The directory that belongs to a session.
pub open spec fn proper_dir(sessions: Seq<char>, s: SessionView) -> Seq<char> {
    match s.kind {
        SessionKind::Root => root_dir(sessions, s.id),
        SessionKind::Child => child_dir(sessions, s.root_session_id, s.id),
    }
}

/// What is found again before an undo is written.
pub struct WriteTarget {
    pub sessions_directory: Probe,
    /// The root of a child.
    pub root: MainProbe,
    /// What stands at the root's `children`.
    pub children: Probe,
    pub main: MainProbe,
    pub runtime_file: Probe,
}

/// What checking the root above a child gives.
pub open spec fn root_above_check(
    sessions: Seq<char>,
    s: SessionView,
    t: WriteTarget,
) -> Result<(), ErrorView> {
    let above = root_dir(sessions, s.root_session_id);
    if s.kind == SessionKind::Root {
        Ok(())
    } else {
        match main_at(above, t.root, s.root_session_id, SessionKind::Root, s.root_session_id) {
            Err(e) => Err(e),
            Ok(None) => Err(
                error::plain_error(
                    ErrorKind::InvalidData,
                    "runtime Task recovery child "@ + s.id + " lost authoritative root "@
                        + s.root_session_id,
                ),
            ),
            Ok(Some(_)) => match directory_check(above + "/children"@, t.children) {
                Err(e) => Err(e),
                Ok(true) => Ok(()),
                Ok(false) => Err(
                    error::plain_error(
                        ErrorKind::NotFound,
                        "runtime Task recovery children directory disappeared for "@ + s.id,
                    ),
                ),
            },
        }
    }
}

/// What checking an undo's write target gives.
pub open spec fn write_target_check(
    sessions: Seq<char>,
    directory: Seq<char>,
    s: SessionView,
    t: WriteTarget,
) -> Result<(), ErrorView> {
    match directory_check(sessions, t.sessions_directory) {
        Err(e) => Err(e),
        Ok(false) => Err(
            error::plain_error(
                ErrorKind::NotFound,
                "runtime Task recovery sessions directory is missing"@,
            ),
        ),
        Ok(true) => if directory != proper_dir(sessions, s) {
            Err(
                error::plain_error(
                    ErrorKind::InvalidData,
                    "runtime Task recovery path mismatch for "@ + s.id + ": "@ + directory,
                ),
            )
        } else {
            match root_above_check(sessions, s, t) {
                Err(e) => Err(e),
                Ok(_) => match main_at(directory, t.main, s.id, s.kind, s.root_session_id) {
                    Err(e) => Err(e),
                    Ok(None) => Err(
                        error::plain_error(
                            ErrorKind::NotFound,
                            "runtime Task recovery target disappeared for "@ + s.id,
                        ),
                    ),
                    Ok(Some(m)) => if m.parent_session_id != s.parent_session_id {
                        Err(
                            error::plain_error(
                                ErrorKind::InvalidData,
                                "runtime Task recovery parent identity changed for "@ + s.id,
                            ),
                        )
                    } else {
                        match file_check(directory + "/runtime.json"@, t.runtime_file) {
                            Err(e) => Err(e),
                            Ok(_) => Ok(()),
                        }
                    },
                },
            }
        },
    }
}

/// Checks once more, just before an undo is written, that the session still stands at its
/// proper place and nothing but real directories and files leads there.
pub fn validate_runtime_task_recovery_write_target(
    sessions_dir: &str,
    abs_dir: &str,
    current: &Session,
    found: WriteTarget,
) -> (r: Result<(), StorageError>)
    ensures
        error::plain_view(r) == write_target_check(sessions_dir@, abs_dir@, current@, found),
{
    match runtime_task_recovery_real_directory(sessions_dir, &found.sessions_directory) {
        Err(e) => {
            return Err(e);
        },
        Ok(there) => {
            if !there {
                return Err(
                    StorageError::new(
                        ErrorKind::NotFound,
                        "runtime Task recovery sessions directory is missing".to_owned(),
                    ),
                );
            }
        },
    }
    let expected = match current.kind {
        SessionKind::Root => join3(sessions_dir, "/", &current.id),
        SessionKind::Child => join5(
            sessions_dir,
            "/",
            &current.root_session_id,
            "/children/",
            &current.id,
        ),
    };
    if !same_text(abs_dir, &expected) {
        return Err(
            StorageError::new(
                ErrorKind::InvalidData,
                join4("runtime Task recovery path mismatch for ", &current.id, ": ", abs_dir),
            ),
        );
    }
    if current.kind == SessionKind::Child {
        let above = join3(sessions_dir, "/", &current.root_session_id);
        match read_runtime_task_recovery_main_at(
            &above,
            found.root,
            &current.root_session_id,
            SessionKind::Root,
            &current.root_session_id,
        ) {
            Err(e) => {
                return Err(e);
            },
            Ok(None) => {
                return Err(
                    StorageError::new(
                        ErrorKind::InvalidData,
                        join4(
                            "runtime Task recovery child ",
                            &current.id,
                            " lost authoritative root ",
                            &current.root_session_id,
                        ),
                    ),
                );
            },
            Ok(Some(_)) => {},
        }
        match runtime_task_recovery_real_directory(&join2(&above, "/children"), &found.children) {
            Err(e) => {
                return Err(e);
            },
            Ok(there) => {
                if !there {
                    return Err(
                        StorageError::new(
                            ErrorKind::NotFound,
                            join2(
                                "runtime Task recovery children directory disappeared for ",
                                &current.id,
                            ),
                        ),
                    );
                }
            },
        }
    }
    let main = match read_runtime_task_recovery_main_at(
        abs_dir,
        found.main,
        &current.id,
        current.kind,
        &current.root_session_id,
    ) {
        Err(e) => {
            return Err(e);
        },
        Ok(None) => {
            return Err(
                StorageError::new(
                    ErrorKind::NotFound,
                    join2("runtime Task recovery target disappeared for ", &current.id),
                ),
            );
        },
        Ok(Some(m)) => m,
    };
    if !same_option_text(&main.parent_session_id, &current.parent_session_id) {
        return Err(
            StorageError::new(
                ErrorKind::InvalidData,
                join2("runtime Task recovery parent identity changed for ", &current.id),
            ),
        );
    }
    match runtime_task_recovery_real_file(&join2(abs_dir, "/runtime.json"), &found.runtime_file) {
        Err(e) => Err(e),
        Ok(_) => Ok(()),
    }
}

/// The session that an undo writes, and where.
pub open spec fn undo_of(
    undo: crate::task_journal::UndoView,
    found: Result<Option<CandidateView>, ErrorView>,
) -> Result<CandidateView, ErrorView> {
    match found {
        Err(e) => Err(e),
        Ok(None) => Err(
            error::plain_error(
                ErrorKind::NotFound,
                "cannot recover missing session "@ + undo.session_id,
            ),
        ),
        Ok(Some(c)) => Ok(
            CandidateView { directory: c.directory, session: task_journal::undone(c.session, undo) },
        ),
    }
}

/// Decides an undo: the session to write durably, and where, once its place is checked again.
pub fn restore_runtime_task_undo(
    undo: &TaskControlPlaneUndo,
    found: Result<Option<Candidate>, StorageError>,
) -> (r: Result<Candidate, StorageError>)
    ensures
        crate::error::result_view(r) == undo_of(undo@, candidate_view(found)),
{
    match found {
        Err(e) => Err(e),
        Ok(None) => Err(
            StorageError::new(
                ErrorKind::NotFound,
                join2("cannot recover missing session ", &undo.session_id),
            ),
        ),
        Ok(Some(c)) => {
            let mut session = c.session;
            apply_undo(&mut session, undo);
            Ok(Candidate { directory: c.directory, session })
        },
    }
}

// ------------------------------------------------------------------------- laws

/// A session that a search finds stands at a place of its own: its identity is the one that its
/// directory names, and the search has found it nowhere else.
pub proof fn a_found_target_is_at_its_place(
    sessions: Seq<char>,
    id: Seq<char>,
    sessions_probe: Probe,
    root: MainProbe,
    items: Option<Seq<ScanItem>>,
)
    requires
        recovery_target(sessions, id, sessions_probe, root, items) is Ok,
        recovery_target(sessions, id, sessions_probe, root, items)->Ok_0 is Some,
    ensures
        ({
            let c = recovery_target(sessions, id, sessions_probe, root, items)->Ok_0->0;
            &&& c.session.id == id
            &&& c.directory == proper_dir(sessions, c.session)
            &&& paths::valid_id(id)
        }),
{
    let list = match items {
        Some(items) => items,
        None => Seq::empty(),
    };
    lemma_walked_places(sessions, id, list);
}

proof fn lemma_walked_places(sessions: Seq<char>, id: Seq<char>, items: Seq<ScanItem>)
    ensures
        walked(sessions, id, items) is Ok ==> forall|i: int|
            0 <= i < walked(sessions, id, items)->Ok_0.len() ==> {
                let c = #[trigger] walked(sessions, id, items)->Ok_0[i];
                c.session.id == id && c.directory == proper_dir(sessions, c.session)
            },
    decreases items.len(),
{
    if items.len() > 0 {
        lemma_walked_places(sessions, id, items.drop_last());
    }
}

/// A session stands where a real directory holds a real session file that states it at this place.
/// Nothing stands where one of them is missing, and anything else is a failure.
pub proof fn what_stands_at_a_place(
    directory: Seq<char>,
    p: MainProbe,
    id: Seq<char>,
    kind: SessionKind,
    root: Seq<char>,
    s: Session,
)
    ensures
        ({
            let r = main_at(directory, p, id, kind, root);
            &&& p.directory is Missing ==> r == Ok::<Option<SessionView>, ErrorView>(None)
            &&& p.directory is Directory && p.file is Missing ==> r == Ok::<
                Option<SessionView>,
                ErrorView,
            >(None)
            &&& p.directory is Directory && p.file is File && p.content is Missing ==> r == Ok::<
                Option<SessionView>,
                ErrorView,
            >(None)
            &&& p.directory is Directory && p.file is File && p.content == SessionFile::Parsed(s) ==> (
            if s@.id == id && s@.kind == kind && s@.root_session_id == root {
                r == Ok::<Option<SessionView>, ErrorView>(Some(s@))
            } else {
                r is Err && r->Err_0.kind == ErrorKind::InvalidData
            })
            &&& p.directory is Directory && p.file is File && (p.content is Corrupt || p.content
                is Failed) ==> r is Err
            &&& p.directory is File || p.directory is Other || p.directory is Failed ==> r is Err
            &&& p.directory is Directory && (p.file is Directory || p.file is Other || p.file
                is Failed) ==> r is Err
        }),
{
}

/// One entry of the sessions directory gives the wanted child exactly where the entry is the real
/// directory of a root that stands there itself and the child stands below its `children`; then it is
/// that child's session, under that directory.
pub proof fn which_entries_give_a_child(
    sessions: Seq<char>,
    id: Seq<char>,
    entry: RootScan,
    c: CandidateView,
)
    ensures
        scanned(sessions, id, ScanItem::Entry(entry)) == Ok::<Option<CandidateView>, ErrorView>(Some(c))
            <==> entry.is_directory && entry.name is Some && paths::valid_id(entry.name->0@)
            && entry.children is Directory && ({
            let root = entry.name->0@;
            let place = sessions + "/"@ + root + "/children/"@ + id;
            &&& c.directory == place
            &&& main_at(place, entry.child, id, SessionKind::Child, root) == Ok::<
                Option<SessionView>,
                ErrorView,
            >(Some(c.session))
            &&& main_at(sessions + "/"@ + root, entry.root, root, SessionKind::Root, root) is Ok
            &&& main_at(
                sessions + "/"@ + root,
                entry.root,
                root,
                SessionKind::Root,
                root,
            )->Ok_0 is Some
        }),
        !entry.is_directory || entry.name is None || !paths::valid_id(entry.name->0@) ==> scanned(
            sessions,
            id,
            ScanItem::Entry(entry),
        ) == Ok::<Option<CandidateView>, ErrorView>(None),
{
}

/// A walk over the sessions directory succeeds exactly where every step of it does, and finds exactly
/// what its steps give, each once.
pub proof fn a_walk_finds_every_child(
    sessions: Seq<char>,
    id: Seq<char>,
    items: Seq<ScanItem>,
    c: CandidateView,
)
    ensures
        walked(sessions, id, items) is Ok <==> forall|i: int|
            0 <= i < items.len() ==> scanned(sessions, id, #[trigger] items[i]) is Ok,
        walked(sessions, id, items) is Ok ==> (walked(sessions, id, items)->Ok_0.contains(c)
            <==> exists|i: int|
            0 <= i < items.len() && scanned(sessions, id, #[trigger] items[i]) == Ok::<
                Option<CandidateView>,
                ErrorView,
            >(Some(c))),
        walked(sessions, id, items) is Ok ==> walked(sessions, id, items)->Ok_0.len() <= items.len(),
    decreases items.len(),
{
    if items.len() > 0 {
        let head = items.drop_last();
        let n = items.len() - 1;
        a_walk_finds_every_child(sessions, id, head, c);
        assert forall|i: int| 0 <= i < n implies head[i] == items[i] by {}
        if walked(sessions, id, items) is Ok {
            assert forall|i: int| 0 <= i < items.len() implies scanned(
                sessions,
                id,
                #[trigger] items[i],
            ) is Ok by {
                if i < n {
                    assert(head[i] == items[i]);
                }
            }
            let found = walked(sessions, id, items)->Ok_0;
            let before = walked(sessions, id, head)->Ok_0;
            if found.contains(c) {
                let k = choose|k: int| 0 <= k < found.len() && found[k] == c;
                if k < before.len() {
                    assert(before[k] == c);
                    let i = choose|i: int|
                        0 <= i < head.len() && scanned(sessions, id, #[trigger] head[i]) == Ok::<
                            Option<CandidateView>,
                            ErrorView,
                        >(Some(c));
                    assert(scanned(sessions, id, items[i]) == Ok::<Option<CandidateView>, ErrorView>(
                        Some(c),
                    ));
                } else {
                    assert(scanned(sessions, id, items[n]) == Ok::<Option<CandidateView>, ErrorView>(
                        Some(c),
                    ));
                }
            }
            if exists|i: int|
                0 <= i < items.len() && scanned(sessions, id, #[trigger] items[i]) == Ok::<
                    Option<CandidateView>,
                    ErrorView,
                >(Some(c)) {
                let i = choose|i: int|
                    0 <= i < items.len() && scanned(sessions, id, #[trigger] items[i]) == Ok::<
                        Option<CandidateView>,
                        ErrorView,
                    >(Some(c));
                if i < n {
                    assert(head[i] == items[i]);
                    assert(before.contains(c));
                    let k = choose|k: int| 0 <= k < before.len() && before[k] == c;
                    assert(found[k] == c);
                } else {
                    assert(found.last() == c);
                }
            }
        }
        if forall|i: int| 0 <= i < items.len() ==> scanned(sessions, id, #[trigger] items[i]) is Ok {
            assert forall|i: int| 0 <= i < head.len() implies scanned(sessions, id, #[trigger] head[i])
                is Ok by {
                assert(head[i] == items[i]);
            }
            assert(scanned(sessions, id, items[n]) is Ok);
        }
    }
}

proof fn lemma_two_found(
    sessions: Seq<char>,
    id: Seq<char>,
    items: Seq<ScanItem>,
    i: int,
    j: int,
)
    requires
        0 <= i < j < items.len(),
        walked(sessions, id, items) is Ok,
        scanned(sessions, id, items[i]) is Ok && scanned(sessions, id, items[i])->Ok_0 is Some,
        scanned(sessions, id, items[j]) is Ok && scanned(sessions, id, items[j])->Ok_0 is Some,
    ensures
        walked(sessions, id, items)->Ok_0.len() >= 2,
    decreases items.len(),
{
    let head = items.drop_last();
    if j < items.len() - 1 {
        lemma_two_found(sessions, id, head, i, j);
    } else {
        let c = scanned(sessions, id, items[i])->Ok_0->0;
        a_walk_finds_every_child(sessions, id, head, c);
        assert(head[i] == items[i]);
        assert(walked(sessions, id, head)->Ok_0.contains(c));
    }
}

/// The session that an undo speaks of is given where it stands at one place: as the root of its id or
/// as a child found by the walk. None is given where it stands nowhere, and a failure where it stands
/// at two places or the sessions directory is gone.
pub proof fn a_target_stands_at_one_place(
    sessions: Seq<char>,
    id: Seq<char>,
    root: MainProbe,
    items: Seq<ScanItem>,
    i: int,
    j: int,
)
    requires
        paths::id_check(id) is Ok,
        walked(sessions, id, items) is Ok,
        main_at(sessions + "/"@ + id, root, id, SessionKind::Root, id) is Ok,
    ensures
        ({
            let at_root = main_at(sessions + "/"@ + id, root, id, SessionKind::Root, id)->Ok_0;
            let children = walked(sessions, id, items)->Ok_0;
            let r = recovery_target(sessions, id, Probe::Directory, root, Some(items));
            &&& at_root is None && children.len() == 0 ==> r == Ok::<Option<CandidateView>, ErrorView>(
                None,
            )
            &&& at_root is Some && children.len() == 0 ==> r == Ok::<Option<CandidateView>, ErrorView>(
                Some(CandidateView { directory: sessions + "/"@ + id, session: at_root->0 }),
            )
            &&& at_root is None && children.len() == 1 ==> r == Ok::<Option<CandidateView>, ErrorView>(
                Some(children[0]),
            )
            &&& at_root is Some && children.len() > 0 ==> r is Err && r->Err_0.kind
                == ErrorKind::InvalidData
            &&& 0 <= i < j < items.len() && scanned(sessions, id, items[i])->Ok_0 is Some && scanned(
                sessions,
                id,
                items[j],
            )->Ok_0 is Some ==> r is Err
            &&& recovery_target(sessions, id, Probe::Missing, root, Some(items)) is Err
        }),
{
    if 0 <= i < j < items.len() && scanned(sessions, id, items[i])->Ok_0 is Some && scanned(
        sessions,
        id,
        items[j],
    )->Ok_0 is Some {
        let c = scanned(sessions, id, items[i])->Ok_0->0;
        a_walk_finds_every_child(sessions, id, items, c);
        lemma_two_found(sessions, id, items, i, j);
    }
}

/// The control plane that an undo works on is the sidecar's, where that agrees with the session file
/// on who and where the session is, and the session file's where there is no sidecar; in both cases
/// without messages, and without a token budget for a root.
pub proof fn an_undo_works_on_the_sidecar(
    c: CandidateView,
    side: Session,
    id: Seq<char>,
    default_id: Seq<char>,
    runtime: SessionFile,
)
    requires
        c.session.id == id,
    ensures
        c.session.authority_identity == crate::session::SessionAuthorityIdentity::Ordinary ==> ({
            let r = recovery_control_plane(Ok(Some(c)), Probe::Missing, runtime, id, default_id);
            &&& r is Ok && r->Ok_0 is Some && r->Ok_0->0.directory == c.directory
            &&& r->Ok_0->0.session.messages.len() == 0
            &&& c.session.kind == SessionKind::Root ==> r->Ok_0->0.session.token_budget is None
            &&& c.session.kind == SessionKind::Child ==> r->Ok_0->0.session.token_budget
                == c.session.token_budget
            &&& (SessionView {
                messages: c.session.messages,
                token_budget: c.session.token_budget,
                ..r->Ok_0->0.session
            }) == c.session
        }),
        ({
            let r = recovery_control_plane(
                Ok(Some(c)),
                Probe::File,
                SessionFile::Parsed(side),
                id,
                default_id,
            );
            &&& r is Ok <==> supervisor::identity_check(side@, default_id) is Ok && side@.id == id
                && side@.kind == c.session.kind && side@.root_session_id == c.session.root_session_id
                && side@.parent_session_id == c.session.parent_session_id
                && supervisor::overlay_check(
                c.session,
                Some(side@.without_stale_budget()),
                default_id,
            ) is Ok
            &&& r is Ok ==> ({
                let v = r->Ok_0->0.session;
                &&& r->Ok_0 is Some && r->Ok_0->0.directory == c.directory
                &&& v.messages.len() == 0
                &&& v.provider_transcript == c.session.provider_transcript
                &&& v.kind == SessionKind::Root ==> v.token_budget is None
                &&& v.kind == SessionKind::Child ==> v.token_budget == side@.token_budget
                &&& (SessionView {
                    messages: side@.messages,
                    provider_transcript: side@.provider_transcript,
                    runtime_metadata: side@.runtime_metadata,
                    token_budget: side@.token_budget,
                    ..v
                }) == side@
            })
        }),
        recovery_control_plane(Ok(None), Probe::Missing, runtime, id, default_id) == Ok::<
            Option<CandidateView>,
            ErrorView,
        >(None),
{
}

/// An undo is written exactly where the session still stands at its proper place with the same
/// parent: a root below the sessions directory, a child below the `children` of a root that stands.
pub proof fn where_an_undo_is_written(
    sessions: Seq<char>,
    directory: Seq<char>,
    s: SessionView,
    t: WriteTarget,
    main: Session,
)
    requires
        t.sessions_directory is Directory,
        t.main.directory is Directory && t.main.file is File && t.main.content
            == SessionFile::Parsed(main),
        main@.id == s.id && main@.kind == s.kind && main@.root_session_id == s.root_session_id,
    ensures
        s.kind == SessionKind::Root ==> (write_target_check(sessions, directory, s, t) is Ok
            <==> directory == sessions + "/"@ + s.id && main@.parent_session_id
            == s.parent_session_id && (t.runtime_file is File || t.runtime_file is Missing)),
        s.kind == SessionKind::Child ==> (write_target_check(sessions, directory, s, t) is Ok
            <==> directory == sessions + "/"@ + s.root_session_id + "/children/"@ + s.id
            && t.children is Directory && main_at(
            sessions + "/"@ + s.root_session_id,
            t.root,
            s.root_session_id,
            SessionKind::Root,
            s.root_session_id,
        ) is Ok && main_at(
            sessions + "/"@ + s.root_session_id,
            t.root,
            s.root_session_id,
            SessionKind::Root,
            s.root_session_id,
        )->Ok_0 is Some && main@.parent_session_id == s.parent_session_id && (t.runtime_file is File
            || t.runtime_file is Missing)),
{
}

/// What an undo writes goes where the session was found; a session that is gone is a failure.
pub proof fn an_undo_goes_where_it_was_found(
    undo: crate::task_journal::UndoView,
    c: CandidateView,
)
    ensures
        undo_of(undo, Ok(None)) is Err,
        undo_of(undo, Ok(None))->Err_0.kind == ErrorKind::NotFound,
        undo_of(undo, Ok(Some(c))) is Ok,
        undo_of(undo, Ok(Some(c)))->Ok_0.directory == c.directory,
        undo_of(undo, Ok(Some(c)))->Ok_0.session.id == c.session.id,
        undo_of(undo, Ok(Some(c)))->Ok_0.session.messages == c.session.messages,
{
}

/// What is said of these values is said of their own fields: none is left out or exchanged.
pub proof fn nothing_is_left_unseen(a: Candidate)
    ensures
        a@.directory == a.directory@ && a@.session == a.session@,
{
}

/// What a recovery finds missing is not found; what it finds out of place is invalid data.
pub proof fn how_a_recovery_target_is_refused(
    sessions: Seq<char>,
    directory: Seq<char>,
    id: Seq<char>,
    s: SessionView,
    t: WriteTarget,
    root: MainProbe,
    items: Option<Seq<ScanItem>>,
    p: Probe,
)
    ensures
        paths::id_check(id) is Ok ==> recovery_target(
            sessions,
            id,
            Probe::Missing,
            root,
            items,
        )->Err_0.kind == ErrorKind::NotFound,
        t.sessions_directory is Missing ==> write_target_check(sessions, directory, s, t) is Err
            && write_target_check(sessions, directory, s, t)->Err_0.kind == ErrorKind::NotFound,
        t.sessions_directory is Directory && directory != proper_dir(sessions, s)
            ==> write_target_check(sessions, directory, s, t) is Err && write_target_check(
            sessions,
            directory,
            s,
            t,
        )->Err_0.kind == ErrorKind::InvalidData,
        t.sessions_directory is Directory && directory == proper_dir(sessions, s) && s.kind
            == SessionKind::Root && t.main.directory is Missing ==> write_target_check(
            sessions,
            directory,
            s,
            t,
        ) is Err && write_target_check(sessions, directory, s, t)->Err_0.kind == ErrorKind::NotFound,
        p is Missing ==> directory_check(directory, p) == Ok::<bool, ErrorView>(false) && file_check(
            directory,
            p,
        ) == Ok::<bool, ErrorView>(false),
        p is Directory ==> directory_check(directory, p) == Ok::<bool, ErrorView>(true) && file_check(
            directory,
            p,
        ) is Err && file_check(directory, p)->Err_0.kind == ErrorKind::InvalidData,
        p is File ==> file_check(directory, p) == Ok::<bool, ErrorView>(true) && directory_check(
            directory,
            p,
        ) is Err && directory_check(directory, p)->Err_0.kind == ErrorKind::InvalidData,
{
}

} // verus!
