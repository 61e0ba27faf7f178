//! Saving a session: its place, the checks before anything is written, and the order of writes.
use crate::error::{ErrorKind, ErrorView, StorageError};
use crate::error;
use crate::index::SessionPlacementView;
use crate::index;
use crate::load::{runtime_sidecar_snapshot, PlaceView, SessionPlace};
use crate::load;
use crate::metrics::SaveKind;
use crate::paths::{child_rel_path, root_rel_path, validate_session_id};
use crate::paths;
use crate::probe::SessionFile;
use crate::session::{Session, SessionKind, SessionView};
use crate::supervisor::validate_authority_for_save;
use crate::supervisor;
use crate::task_journal::reject_regressing_runtime_task;
use crate::task_journal;
use crate::task_protocol;
use crate::text::trim;
use crate::text;
use vstd::prelude::*;

verus! {

/// The directory of a session under the store's home.
pub open spec fn session_place(s: SessionView) -> Result<Seq<char>, ErrorView> {
    let root = text::trimmed(s.root_session_id);
    let parent = match s.parent_session_id {
        Some(p) => text::trimmed(p),
        None => Seq::empty(),
    };
    if paths::id_check(s.id) is Err {
        Err(paths::id_check(s.id)->Err_0)
    } else {
        match s.kind {
            SessionKind::Root => Ok(paths::root_path(s.id)),
            SessionKind::Child => if root.len() == 0 || parent.len() == 0 {
                Err(
                    error::plain_error(
                        ErrorKind::Other,
                        "child session missing root_session_id/parent_session_id"@,
                    ),
                )
            } else if paths::id_check(root) is Err {
                Err(paths::id_check(root)->Err_0)
            } else {
                Ok(paths::child_path(root, s.id))
            },
        }
    }
}

/// The directory of a session: a root's own, and for every descendant one under its root's,
/// however deep it was spawned.
pub fn session_rel_path(session: &Session) -> (r: Result<String, StorageError>)
    ensures
        error::result_view(r) == session_place(session@),
{
    match validate_session_id(&session.id) {
        Err(e) => {
            return Err(e);
        },
        Ok(_) => {},
    }
    match session.kind {
        SessionKind::Root => Ok(root_rel_path(&session.id)),
        SessionKind::Child => {
            let root = trim(&session.root_session_id);
            let has_parent = match &session.parent_session_id {
                Some(p) => !trim(p).is_empty(),
                None => false,
            };
            if root.is_empty() || !has_parent {
                return Err(
                    StorageError::new(
                        ErrorKind::Other,
                        "child session missing root_session_id/parent_session_id".to_owned(),
                    ),
                );
            }
            match validate_session_id(root) {
                Err(e) => {
                    return Err(e);
                },
                Ok(_) => {},
            }
            Ok(child_rel_path(root, &session.id))
        },
    }
}

// ------------------------------------------------------------------------------ decisions

/// A full save that may go ahead.
pub struct FullSavePlan {
    /// The session's directory.
    pub rel_path: String,
    /// Whether the directory holds one for children too.
    pub holds_children: bool,
    /// What is written as the runtime sidecar.
    pub sidecar: Session,
}

/// What a [`FullSavePlan`] holds.
#[verifier::ext_equal]
pub struct FullSaveView {
    pub rel_path: Seq<char>,
    pub holds_children: bool,
    pub sidecar: SessionView,
}

impl View for FullSavePlan {
    type V = FullSaveView;

    open spec fn view(&self) -> FullSaveView {
        FullSaveView {
            rel_path: self.rel_path@,
            holds_children: self.holds_children,
            sidecar: self.sidecar@,
        }
    }
}

/// What every save is answered before anything is written: by the rule of authority, where
/// `authority` is the durable one, by the fence in front of roots, where `fence` is its answer,
/// and by the rule of Tasks, where `durable` is the durable control plane.
pub open spec fn save_check(
    s: SessionView,
    authority: Result<Option<SessionView>, ErrorView>,
    fence: Result<(), ErrorView>,
    durable: Result<Option<SessionView>, ErrorView>,
    default_id: Seq<char>,
) -> Result<(), ErrorView> {
    match supervisor::save_authority_check(s, authority, default_id) {
        Err(e) => Err(e),
        Ok(_) => match fence {
            Err(e) => Err(e),
            Ok(_) => task_journal::task_regression_check(s, durable),
        },
    }
}

fn check_save(
    session: &Session,
    authority: &Result<Option<Session>, StorageError>,
    fence: &Result<(), StorageError>,
    durable: &Result<Option<Session>, StorageError>,
    default_id: &str,
) -> (r: Result<(), StorageError>)
    ensures
        error::plain_view(r) == save_check(
            session@,
            task_journal::load_view(*authority),
            error::plain_view(*fence),
            task_journal::load_view(*durable),
            default_id@,
        ),
{
    match validate_authority_for_save(session, authority, default_id) {
        Err(e) => Err(e),
        Ok(_) => match fence {
            Err(e) => Err(e.clone()),
            Ok(_) => reject_regressing_runtime_task(session, durable),
        },
    }
}

/// What a full save comes to.
pub open spec fn full_save(
    s: SessionView,
    authority: Result<Option<SessionView>, ErrorView>,
    fence: Result<(), ErrorView>,
    durable: Result<Option<SessionView>, ErrorView>,
    default_id: Seq<char>,
) -> Result<FullSaveView, ErrorView> {
    match save_check(s, authority, fence, durable, default_id) {
        Err(e) => Err(e),
        Ok(_) => match session_place(s) {
            Err(e) => Err(e),
            Ok(rel_path) => Ok(
                FullSaveView {
                    rel_path,
                    holds_children: s.kind == SessionKind::Root,
                    sidecar: load::sidecar_of(s),
                },
            ),
        },
    }
}

/// Decides a full save.
pub fn save_session(
    session: &Session,
    authority: &Result<Option<Session>, StorageError>,
    fence: &Result<(), StorageError>,
    durable: &Result<Option<Session>, StorageError>,
    default_id: &str,
) -> (r: Result<FullSavePlan, StorageError>)
    ensures
        error::result_view(r) == full_save(
            session@,
            task_journal::load_view(*authority),
            error::plain_view(*fence),
            task_journal::load_view(*durable),
            default_id@,
        ),
{
    match check_save(session, authority, fence, durable, default_id) {
        Err(e) => {
            return Err(e);
        },
        Ok(_) => {},
    }
    match session_rel_path(session) {
        Err(e) => Err(e),
        Ok(rel_path) => Ok(
            FullSavePlan {
                rel_path,
                holds_children: session.kind == SessionKind::Root,
                sidecar: runtime_sidecar_snapshot(session),
            },
        ),
    }
}

/// A save of the control plane that may go ahead.
pub enum RuntimeSavePlan {
    /// Nothing of the session stands anywhere: it is saved in full.
    Full,
    /// The sidecar alone is written, in the session's directory; where the index does not list
    /// the session, it is listed afterwards.
    Sidecar { rel_path: String, sidecar: Session, listed: bool },
}

/// What a [`RuntimeSavePlan`] holds.
pub enum RuntimeSaveView {
    Full,
    Sidecar { rel_path: Seq<char>, sidecar: SessionView, listed: bool },
}

impl View for RuntimeSavePlan {
    type V = RuntimeSaveView;

    open spec fn view(&self) -> RuntimeSaveView {
        match *self {
            RuntimeSavePlan::Full => RuntimeSaveView::Full,
            RuntimeSavePlan::Sidecar { rel_path, sidecar, listed } => RuntimeSaveView::Sidecar {
                rel_path: rel_path@,
                sidecar: sidecar@,
                listed,
            },
        }
    }
}

/// What a save of the control plane comes to, for a session at its place. Only one of which
/// nothing stands anywhere is saved in full, so a stale index never rewrites a history.
pub open spec fn runtime_save(
    s: SessionView,
    place: PlaceView,
    authority: Result<Option<SessionView>, ErrorView>,
    fence: Result<(), ErrorView>,
    durable: Result<Option<SessionView>, ErrorView>,
    default_id: Seq<char>,
) -> Result<RuntimeSaveView, ErrorView> {
    match place {
        PlaceView::Nowhere => Ok(RuntimeSaveView::Full),
        PlaceView::Listed(rel_path) => sidecar_save(
            s,
            rel_path,
            true,
            save_check(s, authority, fence, durable, default_id),
        ),
        PlaceView::Unlisted(rel_path) => sidecar_save(
            s,
            rel_path,
            false,
            save_check(s, authority, fence, durable, default_id),
        ),
    }
}

/// A save of the sidecar alone, where its check lets it through.
pub open spec fn sidecar_save(
    s: SessionView,
    rel_path: Seq<char>,
    listed: bool,
    check: Result<(), ErrorView>,
) -> Result<RuntimeSaveView, ErrorView> {
    match check {
        Err(e) => Err(e),
        Ok(_) => Ok(
            RuntimeSaveView::Sidecar { rel_path, sidecar: load::sidecar_of(s), listed },
        ),
    }
}

/// Decides a save of the control plane of a session that stands at a place. Where nothing of it
/// stands anywhere the rest does not count: the full save is decided by itself.
pub fn save_runtime_state(
    session: &Session,
    place: SessionPlace,
    authority: &Result<Option<Session>, StorageError>,
    fence: &Result<(), StorageError>,
    durable: &Result<Option<Session>, StorageError>,
    default_id: &str,
) -> (r: Result<RuntimeSavePlan, StorageError>)
    ensures
        error::result_view(r) == runtime_save(
            session@,
            place@,
            task_journal::load_view(*authority),
            error::plain_view(*fence),
            task_journal::load_view(*durable),
            default_id@,
        ),
{
    let (rel_path, listed) = match place {
        SessionPlace::Nowhere => {
            return Ok(RuntimeSavePlan::Full);
        },
        SessionPlace::Listed(rel_path) => (rel_path, true),
        SessionPlace::Unlisted(rel_path) => (rel_path, false),
    };
    match check_save(session, authority, fence, durable, default_id) {
        Err(e) => Err(e),
        Ok(_) => Ok(
            RuntimeSavePlan::Sidecar {
                rel_path,
                sidecar: runtime_sidecar_snapshot(session),
                listed,
            },
        ),
    }
}

// --------------------------------------------------------------------------------- writing

/// One step of writing a save.
#[derive(Debug, Clone, Copy, PartialEq, Eq, Structural)]
pub enum SaveStep {
    PrepareDirectories,
    /// Write the runtime sidecar; durably in a full save.
    WriteSidecar,
    /// Write the session file, durably.
    WriteSession,
    PublishRevision,
    /// Put the session, or what changed of its ownership, into the index.
    PublishIndex,
    /// Read the session back from both of its files, and put that into the index.
    ListSession,
    /// Queue the session for the search index.
    EnqueueSearch,
    /// Record the save in the telemetry.
    Record,
    Finished,
}

/// A save that is being written.
pub struct SaveRun {
    pub kind: SaveKind,
    /// Whether the index listed the session before.
    pub listed: bool,
    pub step: SaveStep,
    pub failure: Option<StorageError>,
}

/// What a [`SaveRun`] holds.
#[verifier::ext_equal]
pub struct SaveRunView {
    pub kind: SaveKind,
    pub listed: bool,
    pub step: SaveStep,
    pub failure: Option<ErrorView>,
}

impl View for SaveRun {
    type V = SaveRunView;

    open spec fn view(&self) -> SaveRunView {
        SaveRunView {
            kind: self.kind,
            listed: self.listed,
            step: self.step,
            failure: task_protocol::opt_error(self.failure),
        }
    }
}

/// A save of a kind that has not begun.
pub open spec fn save_start(kind: SaveKind, listed: bool) -> SaveRunView {
    SaveRunView {
        kind,
        listed,
        step: match kind {
            SaveKind::Full => SaveStep::PrepareDirectories,
            SaveKind::Runtime => SaveStep::WriteSidecar,
        },
        failure: None,
    }
}

/// The step after one that was done; `ownership_changed` says whether a save of the control plane
/// changes what the index says of the session.
pub open spec fn save_after(
    kind: SaveKind,
    listed: bool,
    step: SaveStep,
    ownership_changed: bool,
) -> SaveStep {
    match step {
        SaveStep::PrepareDirectories => SaveStep::WriteSidecar,
        SaveStep::WriteSidecar => match kind {
            SaveKind::Full => SaveStep::WriteSession,
            SaveKind::Runtime => if !listed {
                SaveStep::ListSession
            } else if ownership_changed {
                SaveStep::PublishIndex
            } else {
                SaveStep::Record
            },
        },
        SaveStep::ListSession => SaveStep::Record,
        SaveStep::WriteSession => SaveStep::PublishRevision,
        SaveStep::PublishRevision => SaveStep::PublishIndex,
        SaveStep::PublishIndex => match kind {
            SaveKind::Full => SaveStep::EnqueueSearch,
            SaveKind::Runtime => SaveStep::Record,
        },
        SaveStep::EnqueueSearch => SaveStep::Record,
        SaveStep::Record => SaveStep::Finished,
        SaveStep::Finished => SaveStep::Finished,
    }
}

/// The save after the outcome of the step that was due: the first failure ends it.
pub open spec fn save_step(
    s: SaveRunView,
    outcome: Result<(), ErrorView>,
    ownership_changed: bool,
) -> SaveRunView {
    if s.step == SaveStep::Finished {
        s
    } else {
        match outcome {
            Ok(_) => SaveRunView { step: save_after(s.kind, s.listed, s.step, ownership_changed), ..s },
            Err(e) => SaveRunView { step: SaveStep::Finished, failure: Some(e), ..s },
        }
    }
}

impl SaveRun {
    /// A save of a kind that has not begun, of a session that the index lists or not.
    pub fn begin(kind: SaveKind, listed: bool) -> (r: SaveRun)
        ensures
            r@ == save_start(kind, listed),
    {
        SaveRun {
            kind,
            listed,
            step: match kind {
                SaveKind::Full => SaveStep::PrepareDirectories,
                SaveKind::Runtime => SaveStep::WriteSidecar,
            },
            failure: None,
        }
    }

    /// Takes the outcome of the step that was due.
    pub fn step(self, outcome: Result<(), StorageError>, ownership_changed: bool) -> (r: SaveRun)
        ensures
            r@ == save_step(self@, error::plain_view(outcome), ownership_changed),
    {
        let next = match self.step {
            SaveStep::PrepareDirectories => SaveStep::WriteSidecar,
            SaveStep::WriteSidecar => match self.kind {
                SaveKind::Full => SaveStep::WriteSession,
                SaveKind::Runtime => if !self.listed {
                    SaveStep::ListSession
                } else if ownership_changed {
                    SaveStep::PublishIndex
                } else {
                    SaveStep::Record
                },
            },
            SaveStep::ListSession => SaveStep::Record,
            SaveStep::WriteSession => SaveStep::PublishRevision,
            SaveStep::PublishRevision => SaveStep::PublishIndex,
            SaveStep::PublishIndex => match self.kind {
                SaveKind::Full => SaveStep::EnqueueSearch,
                SaveKind::Runtime => SaveStep::Record,
            },
            SaveStep::EnqueueSearch => SaveStep::Record,
            SaveStep::Record => SaveStep::Finished,
            SaveStep::Finished => {
                return self;
            },
        };
        match outcome {
            Ok(_) => SaveRun { step: next, ..self },
            Err(e) => SaveRun { step: SaveStep::Finished, failure: Some(e), ..self },
        }
    }
}

// ------------------------------------------------------------------------------------ laws

/// Which of the two files hold what is being saved: as a running process sees them, and as a
/// power loss would leave them; and whether the index lists the session.
pub struct SaveDisk {
    pub listed: bool,
    pub sidecar: bool,
    pub session: bool,
    pub durable_sidecar: bool,
    pub durable_session: bool,
}

/// Whether `e` can be the disk after a step on `d`. A write that fails may have taken effect or
/// not, for the process and for the disk each; a sidecar that is written by itself need not last
/// at once.
pub open spec fn saved_by(kind: SaveKind, step: SaveStep, d: SaveDisk, ok: bool, e: SaveDisk) -> bool {
    match step {
        SaveStep::WriteSidecar => {
            &&& e.listed == d.listed
            &&& e.session == d.session && e.durable_session == d.durable_session
            &&& ok ==> e.sidecar && (kind == SaveKind::Full ==> e.durable_sidecar)
            &&& d.sidecar ==> e.sidecar
            &&& d.durable_sidecar ==> e.durable_sidecar
        },
        SaveStep::WriteSession => {
            &&& e.listed == d.listed
            &&& e.sidecar == d.sidecar && e.durable_sidecar == d.durable_sidecar
            &&& ok ==> e.session && e.durable_session
            &&& d.session ==> e.session
            &&& d.durable_session ==> e.durable_session
        },
        SaveStep::PublishIndex | SaveStep::ListSession => {
            &&& (SaveDisk { listed: d.listed, ..e }) == d
            &&& ok || d.listed ==> e.listed
        },
        _ => e == d,
    }
}

/// What holds of the disk at every step of a save.
pub open spec fn save_disk(s: SaveRunView, d: SaveDisk) -> bool {
    &&& d.session ==> d.sidecar
    &&& d.durable_session ==> d.durable_sidecar
    &&& s.kind == SaveKind::Runtime ==> !d.session && !d.durable_session && (s.step
        == SaveStep::WriteSidecar || s.step == SaveStep::PublishIndex || s.step
        == SaveStep::ListSession || s.step == SaveStep::Record || s.step == SaveStep::Finished)
    &&& s.step == SaveStep::ListSession ==> s.kind == SaveKind::Runtime
    &&& s.kind == SaveKind::Runtime && s.listed ==> d.listed
    &&& s.step == SaveStep::PublishIndex && s.kind == SaveKind::Runtime ==> s.listed
    &&& (s.step == SaveStep::EnqueueSearch || s.step == SaveStep::Record || (s.step
        == SaveStep::Finished && s.failure is None)) ==> d.listed
    &&& s.step == SaveStep::WriteSession ==> d.sidecar && d.durable_sidecar
    &&& s.step != SaveStep::Finished ==> s.failure is None
    &&& (s.step == SaveStep::PublishRevision || s.step == SaveStep::EnqueueSearch || (s.step
        == SaveStep::PublishIndex && s.kind == SaveKind::Full) || (s.step == SaveStep::Record
        && s.kind == SaveKind::Full) || (s.step == SaveStep::Finished && s.failure is None && s.kind
        == SaveKind::Full)) ==> d.session && d.durable_session
    &&& (s.step == SaveStep::Record || s.step == SaveStep::PublishIndex || s.step
        == SaveStep::ListSession || (s.step == SaveStep::Finished && s.failure is None))
        ==> d.sidecar
}

/// A crash or power loss at any point of a save never leaves a session file with a sidecar older
/// than itself, which would take the control plane just saved back on the next read; a full save
/// that is answered with success is durable, and after any save that is the index lists the
/// session. A save of the control plane alone never touches the session file.
pub proof fn the_sidecar_is_never_behind(
    s: SaveRunView,
    d: SaveDisk,
    outcome: Result<(), ErrorView>,
    ownership_changed: bool,
    e: SaveDisk,
)
    requires
        save_disk(s, d),
        saved_by(s.kind, s.step, d, outcome is Ok, e),
    ensures
        save_disk(save_step(s, outcome, ownership_changed), e),
        e.session ==> e.sidecar,
        e.durable_session ==> e.durable_sidecar,
        s.step == SaveStep::Finished && s.failure is None && s.kind == SaveKind::Full
            ==> d.durable_session && d.durable_sidecar,
        s.step == SaveStep::Finished && s.failure is None ==> d.sidecar && d.listed,
        s.kind == SaveKind::Runtime ==> e.session == d.session && e.durable_session
            == d.durable_session,
{
}

/// A save begins on a disk that holds nothing of it.
pub proof fn saving_begins(kind: SaveKind, listed: bool, d: SaveDisk)
    requires
        d.listed == listed,
        !d.sidecar && !d.session && !d.durable_sidecar && !d.durable_session,
    ensures
        save_disk(save_start(kind, listed), d),
{
}

/// What is read back after a power loss in a full save of `new` over `before`, where neither file is
/// behind the other: `new` itself, `before` itself, or the control plane of `new` with the
/// history of `before`.
pub proof fn an_interrupted_save_reads_back(before: SessionView, new: SessionView, d: SaveDisk)
    requires
        d.durable_session ==> d.durable_sidecar,
    ensures
        ({
            let main = if d.durable_session {
                new
            } else {
                before
            };
            let side = if d.durable_sidecar {
                new
            } else {
                before
            };
            let read = load::overlaid(main, Some(load::sidecar_of(side)));
            &&& d.durable_session ==> read == new
            &&& !d.durable_sidecar ==> read == before
            &&& read.messages == main.messages
            &&& read.metadata == side.metadata
            &&& read.task_list == side.task_list
            &&& read.agent_runtime_state == side.agent_runtime_state
        }),
{
    crate::load::a_full_save_reads_back(new);
    crate::load::a_full_save_reads_back(before);
}

/// A refused save has no plan: whoever lost to a newer Task generation, holds no authority, or
/// is held back by the fence writes nothing.
pub proof fn refused_saves_write_nothing(
    s: SessionView,
    authority: Result<Option<SessionView>, ErrorView>,
    fence: Result<(), ErrorView>,
    durable: Result<Option<SessionView>, ErrorView>,
    default_id: Seq<char>,
    place: PlaceView,
)
    requires
        save_check(s, authority, fence, durable, default_id) is Err,
        !(place is Nowhere),
    ensures
        full_save(s, authority, fence, durable, default_id) is Err,
        runtime_save(s, place, authority, fence, durable, default_id) is Err,
{
}

/// A save of the control plane of a root that stands at its place, listed or not, is checked
/// against what is durable there and writes the sidecar alone: older Tasks are refused, and the
/// session file with its history is not written.
pub proof fn a_stale_index_never_rewrites_history(
    s: SessionView,
    rel_path: Seq<char>,
    authority: Result<Option<SessionView>, ErrorView>,
    fence: Result<(), ErrorView>,
    durable: Result<Option<SessionView>, ErrorView>,
    default_id: Seq<char>,
)
    ensures
        ({
            let r = runtime_save(
                s,
                PlaceView::Unlisted(rel_path),
                authority,
                fence,
                durable,
                default_id,
            );
            &&& r is Ok <==> save_check(s, authority, fence, durable, default_id) is Ok
            &&& r is Ok ==> r->Ok_0 == (RuntimeSaveView::Sidecar {
                rel_path,
                sidecar: load::sidecar_of(s),
                listed: false,
            })
            &&& durable is Ok && durable->Ok_0 is Some && task_journal::task_write_regresses(
                s,
                durable->Ok_0->0,
            ) ==> r is Err
        }),
{
}

/// What is listed after the control plane `s` of an unlisted root was saved: its published
/// history with the control plane just saved.
pub proof fn an_unlisted_save_lists_the_published_history(
    id: Seq<char>,
    main: Session,
    side: Session,
    s: SessionView,
    default_id: Seq<char>,
    rel_path: Seq<char>,
    has_attachments: bool,
    placement: Option<SessionPlacementView>,
    project: Option<Seq<char>>,
)
    requires
        side@ == load::sidecar_of(s),
        load::authoritative_root(
            id,
            SessionFile::Parsed(main),
            SessionFile::Parsed(side),
            default_id,
        ) is Ok,
    ensures
        ({
            let read = load::authoritative_root(
                id,
                SessionFile::Parsed(main),
                SessionFile::Parsed(side),
                default_id,
            )->Ok_0;
            &&& read is Some
            &&& read->0.messages == main@.messages
            &&& read->0.project() == s.project()
            &&& read->0.metadata_version == s.metadata_version
            &&& read->0.task_list == s.task_list
            &&& index::entry_of(
                read->0,
                rel_path,
                has_attachments,
                placement,
                project,
            ).message_count == main@.messages.len() as usize
        }),
{
}

/// Every root is kept in a directory of its own name, and every other session in one of its own
/// name under its root's, however deep it was spawned; a child has to state both its root and its
/// parent, and every id that names a directory has to be valid.
pub proof fn every_session_has_one_place(s: SessionView)
    ensures
        s.kind == SessionKind::Root ==> (session_place(s) is Ok <==> paths::id_check(s.id) is Ok),
        s.kind == SessionKind::Root && session_place(s) is Ok ==> session_place(s)->Ok_0
            == "sessions/"@ + s.id,
        s.kind == SessionKind::Child ==> (session_place(s) is Ok <==> paths::id_check(s.id) is Ok
            && paths::id_check(text::trimmed(s.root_session_id)) is Ok && text::trimmed(
            s.root_session_id,
        ).len() > 0 && s.parent_session_id is Some && text::trimmed(s.parent_session_id->0).len()
            > 0),
        s.kind == SessionKind::Child && session_place(s) is Ok ==> session_place(s)->Ok_0
            == "sessions/"@ + text::trimmed(s.root_session_id) + "/children/"@ + s.id,
{
}

/// A save is let through exactly where the rule of authority, the fence and the rule of Tasks all
/// let it through, and is answered by the first that does not.
pub proof fn a_save_passes_every_check(
    s: SessionView,
    authority: Result<Option<SessionView>, ErrorView>,
    fence: Result<(), ErrorView>,
    durable: Result<Option<SessionView>, ErrorView>,
    default_id: Seq<char>,
)
    ensures
        save_check(s, authority, fence, durable, default_id) is Ok
            <==> supervisor::save_authority_check(s, authority, default_id) is Ok && fence is Ok
            && durable is Ok && (durable->Ok_0 is Some ==> !task_journal::task_write_regresses(
            s,
            durable->Ok_0->0,
        )),
        supervisor::save_authority_check(s, authority, default_id) is Err ==> save_check(
            s,
            authority,
            fence,
            durable,
            default_id,
        ) == supervisor::save_authority_check(s, authority, default_id),
        supervisor::save_authority_check(s, authority, default_id) is Ok && fence is Err
            ==> save_check(s, authority, fence, durable, default_id) == fence,
{
}

/// A full save that is let through writes the session to its own place, with its runtime file: all
/// of the session but messages, native transcript and inbox admission. It is let through wherever
/// the checks pass and the session has a place.
pub proof fn a_full_save_writes_the_session(
    s: SessionView,
    authority: Result<Option<SessionView>, ErrorView>,
    fence: Result<(), ErrorView>,
    durable: Result<Option<SessionView>, ErrorView>,
    default_id: Seq<char>,
)
    ensures
        ({
            let r = full_save(s, authority, fence, durable, default_id);
            &&& r is Ok <==> save_check(s, authority, fence, durable, default_id) is Ok
                && session_place(s) is Ok
            &&& r is Ok ==> {
                let p = r->Ok_0;
                &&& session_place(s) == Ok::<Seq<char>, ErrorView>(p.rel_path)
                &&& p.holds_children <==> s.kind == SessionKind::Root
                &&& p.sidecar.messages.len() == 0 && p.sidecar.provider_transcript.len() == 0
                &&& (SessionView {
                    messages: s.messages,
                    provider_transcript: s.provider_transcript,
                    runtime_metadata: s.runtime_metadata,
                    ..p.sidecar
                }) == s
                &&& p.sidecar.task_generation() == s.task_generation()
            }
        }),
{
    crate::load::a_sidecar_holds_the_rest(s);
}

/// A save of the control plane of a session that stands somewhere writes, where the checks pass, its
/// runtime file at that place and nothing else; one of which nothing stands anywhere is saved in
/// full.
pub proof fn a_runtime_save_writes_the_sidecar(
    s: SessionView,
    rel: Seq<char>,
    authority: Result<Option<SessionView>, ErrorView>,
    fence: Result<(), ErrorView>,
    durable: Result<Option<SessionView>, ErrorView>,
    default_id: Seq<char>,
)
    ensures
        ({
            let check = save_check(s, authority, fence, durable, default_id);
            let listed = runtime_save(
                s,
                PlaceView::Listed(rel),
                authority,
                fence,
                durable,
                default_id,
            );
            let unlisted = runtime_save(
                s,
                PlaceView::Unlisted(rel),
                authority,
                fence,
                durable,
                default_id,
            );
            &&& check is Err ==> listed == Err::<RuntimeSaveView, ErrorView>(check->Err_0)
                && unlisted == Err::<RuntimeSaveView, ErrorView>(check->Err_0)
            &&& check is Ok ==> {
                let sidecar = listed->Ok_0->sidecar;
                &&& listed == Ok::<RuntimeSaveView, ErrorView>(
                    RuntimeSaveView::Sidecar { rel_path: rel, sidecar, listed: true },
                )
                &&& unlisted == Ok::<RuntimeSaveView, ErrorView>(
                    RuntimeSaveView::Sidecar { rel_path: rel, sidecar, listed: false },
                )
                &&& sidecar.messages.len() == 0 && sidecar.provider_transcript.len() == 0
                &&& (SessionView {
                    messages: s.messages,
                    provider_transcript: s.provider_transcript,
                    runtime_metadata: s.runtime_metadata,
                    ..sidecar
                }) == s
                &&& sidecar.task_generation() == s.task_generation()
            }
        }),
        runtime_save(s, PlaceView::Nowhere, authority, fence, durable, default_id) == Ok::<
            RuntimeSaveView,
            ErrorView,
        >(RuntimeSaveView::Full),
{
    crate::load::a_sidecar_holds_the_rest(s);
}

/// A save after so many steps that went well.
pub open spec fn after_steps(s: SaveRunView, ownership_changed: bool, n: nat) -> SaveRunView
    decreases n,
{
    if n == 0 {
        s
    } else {
        save_step(after_steps(s, ownership_changed, (n - 1) as nat), Ok(()), ownership_changed)
    }
}

/// A full save that goes well makes the directories, writes the runtime file and then the session
/// file, publishes a new revision and the index, queues the session for search, and is recorded; a
/// save of the control plane writes the runtime file, lists the session where it is not listed or
/// else publishes a change of ownership, and is recorded. No step is left out or repeated.
pub proof fn a_save_takes_every_step(listed: bool, ownership_changed: bool)
    ensures
        ({
            let full = save_start(SaveKind::Full, listed);
            &&& after_steps(full, ownership_changed, 0).step == SaveStep::PrepareDirectories
            &&& after_steps(full, ownership_changed, 1).step == SaveStep::WriteSidecar
            &&& after_steps(full, ownership_changed, 2).step == SaveStep::WriteSession
            &&& after_steps(full, ownership_changed, 3).step == SaveStep::PublishRevision
            &&& after_steps(full, ownership_changed, 4).step == SaveStep::PublishIndex
            &&& after_steps(full, ownership_changed, 5).step == SaveStep::EnqueueSearch
            &&& after_steps(full, ownership_changed, 6).step == SaveStep::Record
            &&& after_steps(full, ownership_changed, 7).step == SaveStep::Finished
            &&& after_steps(full, ownership_changed, 7).failure is None
        }),
        ({
            let runtime = save_start(SaveKind::Runtime, listed);
            let last: nat = if !listed || ownership_changed {
                2
            } else {
                1
            };
            &&& after_steps(runtime, ownership_changed, 0).step == SaveStep::WriteSidecar
            &&& !listed ==> after_steps(runtime, ownership_changed, 1).step == SaveStep::ListSession
            &&& listed && ownership_changed ==> after_steps(runtime, ownership_changed, 1).step
                == SaveStep::PublishIndex
            &&& after_steps(runtime, ownership_changed, last).step == SaveStep::Record
            &&& after_steps(runtime, ownership_changed, last + 1).step == SaveStep::Finished
            &&& after_steps(runtime, ownership_changed, last + 1).failure is None
        }),
{
    reveal_with_fuel(after_steps, 8);
}

/// The first step of a save that fails ends it, and its failure is what the save is answered.
pub proof fn a_failed_step_ends_a_save(s: SaveRunView, e: ErrorView, ownership_changed: bool)
    requires
        s.step != SaveStep::Finished,
    ensures
        save_step(s, Err(e), ownership_changed).step == SaveStep::Finished,
        save_step(s, Err(e), ownership_changed).failure == Some(e),
        save_step(save_step(s, Err(e), ownership_changed), Ok(()), ownership_changed) == save_step(
            s,
            Err(e),
            ownership_changed,
        ),
        save_step(s, Ok(()), ownership_changed).failure == s.failure,
{
}

/// What is said of these values is said of their own fields: none is left out or exchanged.
pub proof fn nothing_is_left_unseen(a: FullSavePlan, b: SaveRun)
    ensures
        a@.rel_path == a.rel_path@ && a@.holds_children == a.holds_children,
        a@.sidecar == a.sidecar@,
        b@.failure is Some <==> b.failure is Some,
        b.failure is Some ==> b@.failure->0 == b.failure->0@,
        b@.kind == b.kind && b@.listed == b.listed,
        b@.step == b.step,
{
}

/// Each plan of a runtime save is told from the other, with all that it writes.
pub proof fn runtime_plans_are_told_apart(p: RuntimeSavePlan)
    ensures
        p@ is Full <==> p is Full,
        p is Sidecar ==> p@->rel_path == p->rel_path@ && p@->sidecar == p->sidecar@ && p@->listed
            == p->listed,
{
}

/// A child that does not say whose it is has no place, and is refused with no special kind.
pub proof fn a_child_without_a_root_has_no_place(s: SessionView)
    requires
        paths::id_check(s.id) is Ok,
        s.kind == SessionKind::Child,
        text::trimmed(s.root_session_id).len() == 0 || s.parent_session_id is None || text::trimmed(
            s.parent_session_id->0,
        ).len() == 0,
    ensures
        session_place(s) is Err,
        session_place(s)->Err_0.kind == ErrorKind::Other,
{
}

} // verus!
