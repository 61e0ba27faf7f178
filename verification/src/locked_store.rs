//! The saves of a store that serializes the writes of each session: what each writes, given what
//! is durable when the session's lock is held.
use crate::error::{ErrorKind, ErrorView, StorageError};
use crate::error;
use crate::outside::rfc3339;
use crate::outside;
use crate::metrics::SaveKind;
use crate::publishing::{PublishRule, PublishingSave};
use crate::publishing;
use crate::session::{clone_opt, drop_if_empty, drop_text, same_texts, Session, SessionPermissionMode, SessionRuntimeMetadataView, SessionView};
use crate::session;
use crate::session_merge::{adopt_durable_model_context_state, adopt_durable_task_control_plane, adopt_fresher_disk_permission_posture, apply_authoritative_metadata, ensure_model_context_checkpoint_is_current, is_task_control_plane_save_conflict, merge_authoritative_metadata_into_stale, task_list_snapshot_matches, unconditional_task_patch_would_regress, write_audit, AuditEntry, InboxOutcome, InboxView, MAX_TASK_CONTROL_PLANE_REBASE_RETRIES};
use crate::session_merge;
use crate::task_journal;
use crate::task_protocol;
use crate::text::{join2, less, same_text};
use crate::text;
use vstd::prelude::*;

verus! {

// ------------------------------------------------------------------ rebasing saves

/// What a rebasing save does next.
#[derive(Debug, Clone, Copy, PartialEq, Eq, Structural)]
pub enum RebaseStep {
    /// Save the session as it is now.
    Save,
    /// Load the durable control plane.
    Reload,
    Finished,
}

/// A save that takes over a newer durable Task generation and tries again.
pub struct RebasingSave {
    pub session: Session,
    pub attempt: usize,
    pub step: RebaseStep,
    /// The conflict that the control plane is loaded for.
    pub conflict: Option<StorageError>,
    /// What the save is answered, once it is over.
    pub failure: Option<StorageError>,
}

/// What a [`RebasingSave`] holds.
#[verifier::ext_equal]
pub struct RebaseView {
    pub session: SessionView,
    pub attempt: int,
    pub step: RebaseStep,
    pub conflict: Option<ErrorView>,
    pub failure: Option<ErrorView>,
}

impl View for RebasingSave {
    type V = RebaseView;

    open spec fn view(&self) -> RebaseView {
        RebaseView {
            session: self.session@,
            attempt: self.attempt as int,
            step: self.step,
            conflict: task_protocol::opt_error(self.conflict),
            failure: task_protocol::opt_error(self.failure),
        }
    }
}

/// A save that has not been tried.
pub open spec fn rebase_start(s: SessionView) -> RebaseView {
    RebaseView { session: s, attempt: 0, step: RebaseStep::Save, conflict: None, failure: None }
}

/// The save over, with a failure.
pub open spec fn rebase_failed(s: RebaseView, e: ErrorView) -> RebaseView {
    RebaseView { step: RebaseStep::Finished, failure: Some(e), ..s }
}

/// The save after an attempt.
pub open spec fn rebase_saved(s: RebaseView, outcome: Result<(), ErrorView>) -> RebaseView {
    match outcome {
        Ok(_) => RebaseView { step: RebaseStep::Finished, failure: None, ..s },
        Err(e) => if session_merge::task_save_conflict(e) {
            RebaseView { step: RebaseStep::Reload, conflict: Some(e), ..s }
        } else {
            rebase_failed(s, e)
        },
    }
}

/// The save after the durable control plane was loaded for a conflict.
pub open spec fn rebase_reloaded(
    s: RebaseView,
    loaded: Result<Option<SessionView>, ErrorView>,
) -> RebaseView {
    match loaded {
        Err(e) => rebase_failed(s, e),
        Ok(None) => RebaseView { step: RebaseStep::Finished, failure: s.conflict, ..s },
        Ok(Some(d)) => {
            let session = session_merge::adopted_tasks(s.session, d);
            if s.attempt < MAX_TASK_CONTROL_PLANE_REBASE_RETRIES {
                RebaseView {
                    session,
                    attempt: s.attempt + 1,
                    step: RebaseStep::Save,
                    conflict: None,
                    ..s
                }
            } else {
                RebaseView { session, step: RebaseStep::Finished, failure: s.conflict, ..s }
            }
        },
    }
}

impl RebasingSave {
    /// A save that has not been tried.
    pub fn begin(session: Session) -> (r: RebasingSave)
        ensures
            r@ == rebase_start(session@),
    {
        RebasingSave { session, attempt: 0, step: RebaseStep::Save, conflict: None, failure: None }
    }

    /// Takes the outcome of saving the session.
    pub fn on_saved(self, outcome: Result<(), StorageError>) -> (r: RebasingSave)
        ensures
            r@ == rebase_saved(self@, error::plain_view(outcome)),
    {
        match outcome {
            Ok(_) => RebasingSave { step: RebaseStep::Finished, failure: None, ..self },
            Err(e) => if is_task_control_plane_save_conflict(&e) {
                RebasingSave { step: RebaseStep::Reload, conflict: Some(e), ..self }
            } else {
                RebasingSave { step: RebaseStep::Finished, failure: Some(e), ..self }
            },
        }
    }

    /// Takes what loading the durable control plane gave.
    pub fn on_reloaded(self, loaded: Result<Option<Session>, StorageError>) -> (r: RebasingSave)
        ensures
            r@ == rebase_reloaded(self@, task_journal::load_view(loaded)),
    {
        match loaded {
            Err(e) => RebasingSave { step: RebaseStep::Finished, failure: Some(e), ..self },
            Ok(None) => {
                let conflict = match &self.conflict {
                    Some(e) => Some(e.clone()),
                    None => None,
                };
                RebasingSave { step: RebaseStep::Finished, failure: conflict, ..self }
            },
            Ok(Some(d)) => {
                let mut session = self.session;
                adopt_durable_task_control_plane(&mut session, &d);
                if self.attempt < MAX_TASK_CONTROL_PLANE_REBASE_RETRIES {
                    RebasingSave {
                        session,
                        attempt: self.attempt + 1,
                        step: RebaseStep::Save,
                        conflict: None,
                        failure: self.failure,
                    }
                } else {
                    let failure = match &self.conflict {
                        Some(e) => Some(e.clone()),
                        None => None,
                    };
                    RebasingSave {
                        session,
                        attempt: self.attempt,
                        step: RebaseStep::Finished,
                        conflict: self.conflict,
                        failure,
                    }
                }
            },
        }
    }
}

/// What holds of a rebasing save of `original` at every point.
pub open spec fn rebase_inv(original: SessionView, s: RebaseView) -> bool {
    &&& 0 <= s.attempt <= MAX_TASK_CONTROL_PLANE_REBASE_RETRIES
    &&& s.session.without_tasks() == original.without_tasks()
    &&& s.step == RebaseStep::Reload ==> s.conflict is Some
    &&& s.attempt == 0 && s.step != RebaseStep::Finished ==> s.session == original
}

/// A rebasing save begins with the caller's session.
pub proof fn rebasing_begins(original: SessionView)
    ensures
        rebase_inv(original, rebase_start(original)),
{
}

/// A rebasing save tries a bounded number of times, changes nothing of the caller's session but
/// its Tasks, and ends in success exactly with a save that succeeded.
pub proof fn rebasing_is_bounded_and_narrow(
    original: SessionView,
    s: RebaseView,
    outcome: Result<(), ErrorView>,
    loaded: Result<Option<SessionView>, ErrorView>,
)
    requires
        rebase_inv(original, s),
        s.step != RebaseStep::Finished,
    ensures
        s.step == RebaseStep::Save ==> rebase_inv(original, rebase_saved(s, outcome)),
        s.step == RebaseStep::Save ==> (outcome is Ok <==> rebase_saved(s, outcome).step
            == RebaseStep::Finished && rebase_saved(s, outcome).failure is None),
        s.step == RebaseStep::Save ==> rebase_saved(s, outcome).session == s.session,
        s.step == RebaseStep::Reload ==> rebase_inv(original, rebase_reloaded(s, loaded)),
        s.step == RebaseStep::Reload ==> rebase_reloaded(s, loaded).attempt == s.attempt + 1
            || rebase_reloaded(s, loaded).step == RebaseStep::Finished && rebase_reloaded(
            s,
            loaded,
        ).failure is Some,
{
    if loaded is Ok && loaded->Ok_0 is Some {
        adopting_tasks_changes_only_tasks(s.session, loaded->Ok_0->0);
    }
}

/// Taking over durable Tasks changes nothing but the Tasks, and gives exactly the durable ones.
pub proof fn adopting_tasks_changes_only_tasks(s: SessionView, durable: SessionView)
    ensures
        session_merge::adopted_tasks(s, durable).without_tasks() == s.without_tasks(),
        task_journal::same_tasks(session_merge::adopted_tasks(s, durable), durable),
{
    let a = session_merge::adopted_tasks(s, durable);
    assert(a.without_tasks().metadata =~= s.without_tasks().metadata);
    assert(a.without_tasks() =~= s.without_tasks());
}

/// After taking over the Tasks of the durable session, saving over that session takes nothing
/// back: the retry of a rebasing save cannot lose to the generation that it has taken over.
pub proof fn a_rebased_save_no_longer_conflicts(s: SessionView, durable: SessionView)
    ensures
        !task_journal::task_write_regresses(session_merge::adopted_tasks(s, durable), durable),
{
    adopting_tasks_changes_only_tasks(s, durable);
}

// -------------------------------------------------------------------- Task patches

/// A Task update of one session: the session as it was loaded, and as it is to be saved.
pub struct TaskPatch {
    pub original: Session,
    pub updated: Session,
}

/// What a [`TaskPatch`] holds.
#[verifier::ext_equal]
pub struct TaskPatchView {
    pub original: SessionView,
    pub updated: SessionView,
}

impl View for TaskPatch {
    type V = TaskPatchView;

    open spec fn view(&self) -> TaskPatchView {
        TaskPatchView { original: self.original@, updated: self.updated@ }
    }
}

/// What a patch decision gave.
pub open spec fn patch_view(
    r: Result<Option<TaskPatch>, StorageError>,
) -> Result<Option<TaskPatchView>, ErrorView> {
    match r {
        Ok(Some(p)) => Ok(Some(p@)),
        Ok(None) => Ok(None),
        Err(e) => Err(e@),
    }
}

/// The patch that puts Tasks into a session.
pub open spec fn task_patch(s: SessionView, list: Seq<char>, generation: Seq<char>) -> TaskPatchView {
    TaskPatchView { original: s, updated: s.with_tasks(Some(list), generation) }
}

/// The failure of a patch that lost to another writer.
pub open spec fn patch_conflict(session_id: Seq<char>) -> ErrorView {
    error::plain_error(
        ErrorKind::WouldBlock,
        "Task control-plane changed while patching session "@ + session_id,
    )
}

/// The patch of one session, if it exists and the patch takes nothing back.
pub open spec fn unconditional_patch(
    session_id: Seq<char>,
    latest: Result<Option<SessionView>, ErrorView>,
    list: Seq<char>,
    generation: Seq<char>,
) -> Result<Option<TaskPatchView>, ErrorView> {
    match latest {
        Err(e) => Err(e),
        Ok(None) => Ok(None),
        Ok(Some(s)) => if session_merge::task_patch_regresses(s, list, generation) {
            Err(patch_conflict(session_id))
        } else {
            Ok(Some(task_patch(s, list, generation)))
        },
    }
}

/// Whether a session holds exactly these Tasks.
pub open spec fn holds_tasks(s: SessionView, list: Seq<char>, generation: Seq<char>) -> bool {
    s.task_generation() == Some(generation) && s.task_list == Some(list)
}

/// The patch of one session, if it exists and holds the Tasks that the caller has seen.
pub open spec fn conditional_patch(
    latest: Result<Option<SessionView>, ErrorView>,
    expected_list: Seq<char>,
    expected_generation: Seq<char>,
    list: Seq<char>,
    generation: Seq<char>,
) -> Result<Option<TaskPatchView>, ErrorView> {
    match latest {
        Err(e) => Err(e),
        Ok(None) => Ok(None),
        Ok(Some(s)) => if holds_tasks(s, expected_list, expected_generation) {
            Ok(Some(task_patch(s, list, generation)))
        } else {
            Ok(None)
        },
    }
}

fn has_tasks(session: &Session, list: &str, generation: &str) -> (r: bool)
    ensures
        r == holds_tasks(session@, list@, generation@),
{
    let held = match session.task_list_version_meta() {
        Some(v) => same_text(&v, generation),
        None => false,
    };
    held && task_list_snapshot_matches(session, list)
}

fn make_patch(session: Session, list: &str, generation: &str) -> (r: TaskPatch)
    ensures
        r@ == task_patch(session@, list@, generation@),
{
    let original = session.duplicate();
    let mut updated = session;
    updated.set_tasks(Some(list.to_owned()), generation.to_owned());
    TaskPatch { original, updated }
}

/// A Task update of a session and of the root that it shares Tasks with.
pub struct TaskPairPatch {
    pub local: TaskPatch,
    pub shared: TaskPatch,
    /// Whether the session's own id comes before the shared one's.
    pub local_first: bool,
}

/// What a [`TaskPairPatch`] holds.
#[verifier::ext_equal]
pub struct TaskPairPatchView {
    pub local: TaskPatchView,
    pub shared: TaskPatchView,
    pub local_first: bool,
}

impl View for TaskPairPatch {
    type V = TaskPairPatchView;

    open spec fn view(&self) -> TaskPairPatchView {
        TaskPairPatchView {
            local: self.local@,
            shared: self.shared@,
            local_first: self.local_first,
        }
    }
}

/// What a decision on a paired patch gave.
pub open spec fn pair_patch_view(
    r: Result<Option<TaskPairPatch>, StorageError>,
) -> Result<Option<TaskPairPatchView>, ErrorView> {
    match r {
        Ok(Some(p)) => Ok(Some(p@)),
        Ok(None) => Ok(None),
        Err(e) => Err(e@),
    }
}

/// The patch of a session and its shared root, if both exist and hold the Tasks that the caller
/// has seen.
pub open spec fn conditional_pair_patch(
    session_id: Seq<char>,
    shared_session_id: Seq<char>,
    local: Result<Option<SessionView>, ErrorView>,
    shared: Result<Option<SessionView>, ErrorView>,
    expected_list: Seq<char>,
    expected_generation: Seq<char>,
    list: Seq<char>,
    generation: Seq<char>,
) -> Result<Option<TaskPairPatchView>, ErrorView> {
    match local {
        Err(e) => Err(e),
        Ok(None) => Ok(None),
        Ok(Some(a)) => match shared {
            Err(e) => Err(e),
            Ok(None) => Ok(None),
            Ok(Some(b)) => if holds_tasks(a, expected_list, expected_generation) && holds_tasks(
                b,
                expected_list,
                expected_generation,
            ) {
                Ok(
                    Some(
                        TaskPairPatchView {
                            local: task_patch(a, list, generation),
                            shared: task_patch(b, list, generation),
                            local_first: text::text_less(session_id, shared_session_id),
                        },
                    ),
                )
            } else {
                Ok(None)
            },
        },
    }
}

impl TaskPairPatch {
    /// The two updates in the order in which they are committed: the smaller id first.
    pub fn in_order(&self) -> (r: (&TaskPatch, &TaskPatch))
        ensures
            (r.0@, r.1@) == pair_in_order(self@),
    {
        if self.local_first {
            (&self.local, &self.shared)
        } else {
            (&self.shared, &self.local)
        }
    }
}

/// The two updates of a pair in the order in which they are committed.
pub open spec fn pair_in_order(p: TaskPairPatchView) -> (TaskPatchView, TaskPatchView) {
    if p.local_first {
        (p.local, p.shared)
    } else {
        (p.shared, p.local)
    }
}

/// What a Task update of one session comes to: the session that its callback is given, where it
/// runs, and the answer.
pub struct PatchAnswer {
    pub publish: Option<Session>,
    pub answer: Result<bool, StorageError>,
}

/// What a [`PatchAnswer`] holds.
#[verifier::ext_equal]
pub struct PatchAnswerView {
    pub publish: Option<SessionView>,
    pub answer: Result<bool, ErrorView>,
}

impl View for PatchAnswer {
    type V = PatchAnswerView;

    open spec fn view(&self) -> PatchAnswerView {
        PatchAnswerView {
            publish: session::opt_view(self.publish),
            answer: error::plain_view(self.answer),
        }
    }
}

/// What a Task update comes to that was decided as `plan` and whose save gave `saved`. A save is
/// made only where there is a patch; the callback runs exactly where the save was made good.
pub open spec fn patch_outcome(
    plan: Result<Option<TaskPatchView>, ErrorView>,
    saved: Result<bool, ErrorView>,
) -> PatchAnswerView {
    match plan {
        Err(e) => PatchAnswerView { publish: None, answer: Err(e) },
        Ok(None) => PatchAnswerView { publish: None, answer: Ok(false) },
        Ok(Some(p)) => PatchAnswerView {
            publish: if saved == Ok::<bool, ErrorView>(true) {
                Some(p.updated)
            } else {
                None
            },
            answer: saved,
        },
    }
}

/// The outcome of saving an unconditional patch: one that found the session changed has failed.
pub open spec fn unconditional_saved(session_id: Seq<char>, saved: Result<bool, ErrorView>) -> Result<
    bool,
    ErrorView,
> {
    match saved {
        Ok(true) => Ok(true),
        Ok(false) => Err(patch_conflict(session_id)),
        Err(e) => Err(e),
    }
}

/// What a Task update of a session and its shared root comes to: the two sessions that its
/// callback is given, the session's own first, and the answer.
pub struct PairAnswer {
    pub publish: Option<(Session, Session)>,
    pub answer: Result<bool, StorageError>,
}

/// What a [`PairAnswer`] holds.
#[verifier::ext_equal]
pub struct PairAnswerView {
    pub publish: Option<(SessionView, SessionView)>,
    pub answer: Result<bool, ErrorView>,
}

impl View for PairAnswer {
    type V = PairAnswerView;

    open spec fn view(&self) -> PairAnswerView {
        PairAnswerView {
            publish: match self.publish {
                Some(p) => Some((p.0@, p.1@)),
                None => None,
            },
            answer: error::plain_view(self.answer),
        }
    }
}

/// What a Task update of a pair comes to that was decided as `plan` and whose commit gave
/// `saved`.
pub open spec fn pair_outcome(
    plan: Result<Option<TaskPairPatchView>, ErrorView>,
    saved: Result<bool, ErrorView>,
) -> PairAnswerView {
    match plan {
        Err(e) => PairAnswerView { publish: None, answer: Err(e) },
        Ok(None) => PairAnswerView { publish: None, answer: Ok(false) },
        Ok(Some(p)) => PairAnswerView {
            publish: if saved == Ok::<bool, ErrorView>(true) {
                Some((p.local.updated, p.shared.updated))
            } else {
                None
            },
            answer: saved,
        },
    }
}

// ------------------------------------------------------------------ permission audits

/// How a session's permissions were resolved, and when that last changed.
pub struct PermissionAudit {
    /// The resolution, written out.
    pub resolution: String,
    pub requested: SessionPermissionMode,
    pub audit_revision: u64,
    pub transitioned_at: Option<String>,
}

/// What a [`PermissionAudit`] holds.
#[verifier::ext_equal]
pub struct PermissionAuditView {
    pub resolution: Seq<char>,
    pub requested: SessionPermissionMode,
    pub audit_revision: u64,
    pub transitioned_at: Option<Seq<char>>,
}

impl View for PermissionAudit {
    type V = PermissionAuditView;

    open spec fn view(&self) -> PermissionAuditView {
        PermissionAuditView {
            resolution: self.resolution@,
            requested: self.requested,
            audit_revision: self.audit_revision,
            transitioned_at: session::opt_text(self.transitioned_at),
        }
    }
}

/// A resolution of permissions that is to be recorded.
pub struct PermissionSeed {
    /// The resolution, written out.
    pub resolution: String,
    pub requested: SessionPermissionMode,
    /// Whether the resolution agrees with itself.
    pub consistent: bool,
}

/// The audit revision that the next one has to exceed.
pub open spec fn audit_floor(
    incoming: PermissionAuditView,
    durable: Option<PermissionAuditView>,
) -> u64 {
    let floor = match durable {
        Some(d) => d.audit_revision,
        None => 0,
    };
    if floor < incoming.audit_revision {
        incoming.audit_revision
    } else {
        floor
    }
}

/// The audit revision that the next one has to exceed, where an activation replaces a durable
/// session.
pub fn activation_audit_floor(incoming: &PermissionAudit, durable: &Option<PermissionAudit>) -> (r:
    u64)
    ensures
        r == audit_floor(incoming@, session::opt_view(*durable)),
{
    let floor: u64 = match durable {
        Some(d) => d.audit_revision,
        None => 0,
    };
    if floor < incoming.audit_revision {
        incoming.audit_revision
    } else {
        floor
    }
}

/// The session that an activation is written over: metadata group and inbox of the durable one
/// merged in, and nothing else of it.
pub open spec fn activation_base(s: SessionView, latest: SessionView, inbox: InboxView) -> SessionView {
    session_merge::with_inbox(session_merge::merged_metadata(s, latest), inbox)
}

/// The audit record that an activation writes over a durable session.
pub open spec fn activation_audit(
    incoming: PermissionAuditView,
    durable: Option<PermissionAuditView>,
    revision: u64,
) -> PermissionAuditView {
    PermissionAuditView {
        audit_revision: revision,
        transitioned_at: match durable {
            Some(d) => if d.resolution == incoming.resolution {
                d.transitioned_at
            } else {
                incoming.transitioned_at
            },
            None => incoming.transitioned_at,
        },
        ..incoming
    }
}

/// How a re-seeded posture differs from the one before.
pub struct PermissionTransition {
    pub mode_changed: bool,
    /// When the posture changed, where it did.
    pub transitioned_at: Option<String>,
}

/// What a [`PermissionTransition`] holds.
#[verifier::ext_equal]
pub struct PermissionTransitionView {
    pub mode_changed: bool,
    pub transitioned_at: Option<Seq<char>>,
}

impl View for PermissionTransition {
    type V = PermissionTransitionView;

    open spec fn view(&self) -> PermissionTransitionView {
        PermissionTransitionView {
            mode_changed: self.mode_changed,
            transitioned_at: session::opt_text(self.transitioned_at),
        }
    }
}

/// The session with a re-seeded posture and its audit record; a true change of mode counts as a
/// metadata edit.
pub open spec fn reseeded(
    s: SessionView,
    requested: SessionPermissionMode,
    mode_changed: bool,
    entries: Seq<AuditEntry>,
) -> SessionView {
    let a = session_merge::with_audit(s.with_permission_mode(requested), entries);
    SessionView {
        metadata_version: if mode_changed && a.metadata_version < u64::MAX {
            (a.metadata_version + 1) as u64
        } else {
            a.metadata_version
        },
        ..a
    }
}

/// What recording a worker's posture is answered before anything is recorded.
pub open spec fn posture_check(
    s: SessionView,
    durable_revision: Option<u64>,
    expected_revision: Option<u64>,
    requested: SessionPermissionMode,
    consistent: bool,
) -> Result<(), ErrorView> {
    if durable_revision != expected_revision {
        Err(
            error::plain_error(
                ErrorKind::InvalidData,
                "stale permission posture activation: durable audit changed after dispatch"@,
            ),
        )
    } else if s.permission_mode() != requested || !consistent {
        Err(
            error::plain_error(
                ErrorKind::InvalidData,
                "stale or inconsistent permission posture activation"@,
            ),
        )
    } else {
        Ok(())
    }
}

/// The session without messages that wait to be injected.
pub open spec fn without_pending(s: SessionView) -> SessionView {
    SessionView {
        metadata: s.metadata.remove("pending_injected_messages"@),
        runtime_metadata: session::unless_empty(
            match s.runtime_metadata {
                Some(m) => Some(
                    SessionRuntimeMetadataView { pending_injected_messages: None, ..m },
                ),
                None => None,
            },
        ),
        ..s
    }
}

/// Whether a save can be prepared, where what is durable was loaded with an outcome.
pub open spec fn when_loaded(loaded: Result<Option<SessionView>, ErrorView>) -> Result<(), ErrorView> {
    match loaded {
        Ok(_) => Ok(()),
        Err(e) => Err(e),
    }
}

/// The session that a save of the control plane alone writes over what is durable.
pub open spec fn control_plane_merged(
    s: SessionView,
    loaded: Result<Option<SessionView>, ErrorView>,
    audit: Option<Seq<AuditEntry>>,
) -> SessionView {
    match loaded {
        Ok(Some(l)) => session_merge::durable_ledger(
            session_merge::fresher_posture(session_merge::merged_metadata(s, l), l, audit),
            l,
        ),
        _ => s,
    }
}

/// The session that a full save of a running session writes over what is durable.
pub open spec fn fully_merged(
    s: SessionView,
    loaded: Result<Option<SessionView>, ErrorView>,
    inbox: InboxView,
    audit: Option<Seq<AuditEntry>>,
    adopt_bypass: bool,
) -> SessionView {
    match loaded {
        Ok(Some(l)) => session_merge::merged(s, l, inbox, audit, adopt_bypass),
        _ => s,
    }
}

/// Whether a checkpoint can be prepared over what is durable.
pub open spec fn checkpoint_prepared(
    s: SessionView,
    loaded: Result<Option<SessionView>, ErrorView>,
) -> Result<(), ErrorView> {
    match loaded {
        Err(e) => Err(e),
        Ok(Some(l)) => session_merge::ledger_check(s, l),
        Ok(None) => Ok(()),
    }
}

/// The session that a checkpoint writes over what is durable.
pub open spec fn checkpointed(
    s: SessionView,
    loaded: Result<Option<SessionView>, ErrorView>,
    inbox: InboxView,
    audit: Option<Seq<AuditEntry>>,
) -> SessionView {
    match loaded {
        Ok(Some(l)) => if session_merge::ledger_is_stale(s, l) {
            s
        } else {
            session_merge::fresher_posture(
                session_merge::merged_metadata(session_merge::with_inbox(s, inbox), l),
                l,
                audit,
            )
        },
        _ => s,
    }
}

// ---------------------------------------------------------------------- the store

/// The saves of a store that serializes the writes of each session. Whoever holds the lock of a
/// session loads what is durable, has the save decided here, and carries it out.
pub struct LockedSessionStore {}

/// The next audit revision, or why there is none.
pub open spec fn next_view(next: Result<u64, String>) -> Result<u64, Seq<char>> {
    match next {
        Ok(n) => Ok(n),
        Err(e) => Err(e@),
    }
}

/// What seeding an activation is answered.
pub open spec fn seed_answer(
    latest: Result<Option<SessionView>, ErrorView>,
    incoming: Option<PermissionAuditView>,
    durable: Option<PermissionAuditView>,
    next: Result<u64, Seq<char>>,
) -> Result<PermissionAuditView, ErrorView> {
    match incoming {
        None => Err(
            error::plain_error(
                ErrorKind::InvalidInput,
                "activation seed requires a complete permission audit record"@,
            ),
        ),
        Some(a) => match (latest, next) {
            (Err(e), _) => Err(e),
            (Ok(None), _) => Ok(a),
            (Ok(Some(_)), Err(e)) => Err(error::plain_error(ErrorKind::InvalidData, e)),
            (Ok(Some(_)), Ok(n)) => Ok(activation_audit(a, durable, n)),
        },
    }
}

/// The session after an activation was seeded, or could not be.
pub open spec fn seeded_session(
    s: SessionView,
    latest: Result<Option<SessionView>, ErrorView>,
    inbox: InboxView,
    incoming: Option<PermissionAuditView>,
    ok: bool,
) -> SessionView {
    match incoming {
        None => s,
        Some(a) => {
            let base = match latest {
                Ok(Some(l)) => activation_base(s, l, inbox),
                _ => s,
            };
            if ok {
                base.with_permission_mode(a.requested)
            } else {
                base
            }
        },
    }
}

/// The session that an activation saves.
pub open spec fn activated(
    s: SessionView,
    seeded: Result<Vec<AuditEntry>, StorageError>,
) -> SessionView {
    match seeded {
        Ok(entries) => session_merge::with_audit(s, entries@),
        Err(_) => s,
    }
}

/// Whether an activation was prepared.
pub open spec fn activation_prepared(seeded: Result<Vec<AuditEntry>, StorageError>) -> Result<
    (),
    ErrorView,
> {
    match seeded {
        Ok(_) => Ok(()),
        Err(e) => Err(e@),
    }
}

/// When a posture changed, if it did: now, where the resolution is another than the recorded one.
pub open spec fn transition_date(
    previous: Option<PermissionAuditView>,
    resolution: Seq<char>,
    now: crate::time::Timestamp,
) -> Option<Seq<char>> {
    if previous is Some && previous->0.resolution == resolution {
        None
    } else if outside::in_calendar(now) {
        Some(outside::rfc3339_of(now.secs, now.nanos))
    } else {
        None
    }
}

/// The session without its pending messages, where these are the expected ones.
pub open spec fn pending_cleared(
    latest: SessionView,
    current: Option<Seq<Seq<char>>>,
    expected: Seq<Seq<char>>,
) -> Option<SessionView> {
    if current == Some(expected) {
        Some(without_pending(latest))
    } else {
        None
    }
}

impl LockedSessionStore {
    /// A save of the control plane alone: the durable metadata group is written unless the
    /// caller's is newer, the durable posture where it is fresher, and the durable ledger always.
    /// Where what is durable cannot be loaded nothing is saved or published; otherwise the callback
    /// runs once, whether or not the save succeeds.
    pub fn save_runtime_only_and_publish(
        session: &Session,
        latest: Result<Option<Session>, StorageError>,
        disk_audit: &Option<Vec<AuditEntry>>,
    ) -> (r: PublishingSave)
        ensures
            r@ == publishing::publishing_start(
                SaveKind::Runtime,
                PublishRule::Tried,
                control_plane_merged(
                    session@,
                    task_journal::load_view(latest),
                    session_merge::opt_entries(*disk_audit),
                ),
                when_loaded(task_journal::load_view(latest)),
            ),
    {
        let mut merged = session.duplicate();
        let prepared = match latest {
            Err(e) => Err(e),
            Ok(None) => Ok(()),
            Ok(Some(l)) => {
                apply_authoritative_metadata(&mut merged, &l);
                adopt_fresher_disk_permission_posture(&mut merged, &l, disk_audit);
                adopt_durable_model_context_state(&mut merged, &l);
                Ok(())
            },
        };
        PublishingSave::begin(SaveKind::Runtime, PublishRule::Tried, merged, prepared)
    }

    /// The patch that puts Tasks into a session, where it exists; refused where it would take
    /// back what the session holds.
    pub fn update_task_list_control_plane_and_publish(
        session_id: &str,
        latest: Result<Option<Session>, StorageError>,
        task_list: &str,
        version: &str,
    ) -> (r: Result<Option<TaskPatch>, StorageError>)
        ensures
            patch_view(r) == unconditional_patch(
                session_id@,
                task_journal::load_view(latest),
                task_list@,
                version@,
            ),
    {
        match latest {
            Err(e) => Err(e),
            Ok(None) => Ok(None),
            Ok(Some(s)) => {
                if unconditional_task_patch_would_regress(&s, task_list, version) {
                    Err(
                        StorageError::new(
                            ErrorKind::WouldBlock,
                            join2("Task control-plane changed while patching session ", session_id),
                        ),
                    )
                } else {
                    Ok(Some(make_patch(s, task_list, version)))
                }
            },
        }
    }

    /// What an unconditional Task patch comes to, where `saved` says whether the session still was
    /// as it had been loaded. The callback runs once where the patch was saved, and not otherwise.
    pub fn task_patch_answer(
        session_id: &str,
        plan: Result<Option<TaskPatch>, StorageError>,
        saved: Result<bool, StorageError>,
    ) -> (r: PatchAnswer)
        ensures
            r@ == patch_outcome(
                patch_view(plan),
                unconditional_saved(session_id@, error::plain_view(saved)),
            ),
    {
        let saved = match saved {
            Ok(true) => Ok(true),
            Ok(false) => Err(
                StorageError::new(
                    ErrorKind::WouldBlock,
                    join2("Task control-plane changed while patching session ", session_id),
                ),
            ),
            Err(e) => Err(e),
        };
        LockedSessionStore::conditional_patch_answer(plan, saved)
    }

    /// What a conditional Task patch comes to, where `saved` says whether the session still was as
    /// it had been loaded. The callback runs once where the patch was saved, and not otherwise.
    pub fn conditional_patch_answer(
        plan: Result<Option<TaskPatch>, StorageError>,
        saved: Result<bool, StorageError>,
    ) -> (r: PatchAnswer)
        ensures
            r@ == patch_outcome(patch_view(plan), error::plain_view(saved)),
    {
        match plan {
            Err(e) => PatchAnswer { publish: None, answer: Err(e) },
            Ok(None) => PatchAnswer { publish: None, answer: Ok(false) },
            Ok(Some(p)) => match saved {
                Ok(true) => PatchAnswer { publish: Some(p.updated), answer: Ok(true) },
                other => PatchAnswer { publish: None, answer: other },
            },
        }
    }

    /// What a Task patch of a session and its shared root comes to, where `saved` says whether
    /// both were committed. The callback runs once where they were, with the session before the
    /// shared root, and not otherwise.
    pub fn paired_patch_answer(
        plan: Result<Option<TaskPairPatch>, StorageError>,
        saved: Result<bool, StorageError>,
    ) -> (r: PairAnswer)
        ensures
            r@ == pair_outcome(pair_patch_view(plan), error::plain_view(saved)),
    {
        match plan {
            Err(e) => PairAnswer { publish: None, answer: Err(e) },
            Ok(None) => PairAnswer { publish: None, answer: Ok(false) },
            Ok(Some(p)) => match saved {
                Ok(true) => PairAnswer {
                    publish: Some((p.local.updated, p.shared.updated)),
                    answer: Ok(true),
                },
                other => PairAnswer { publish: None, answer: other },
            },
        }
    }

    /// The patch that puts Tasks into a session that still holds the Tasks that the caller has
    /// seen.
    pub fn update_task_list_control_plane_if_version_and_publish(
        latest: Result<Option<Session>, StorageError>,
        expected_version: &str,
        expected_task_list: &str,
        task_list: &str,
        version: &str,
    ) -> (r: Result<Option<TaskPatch>, StorageError>)
        ensures
            patch_view(r) == conditional_patch(
                task_journal::load_view(latest),
                expected_task_list@,
                expected_version@,
                task_list@,
                version@,
            ),
    {
        match latest {
            Err(e) => Err(e),
            Ok(None) => Ok(None),
            Ok(Some(s)) => {
                if has_tasks(&s, expected_task_list, expected_version) {
                    Ok(Some(make_patch(s, task_list, version)))
                } else {
                    Ok(None)
                }
            },
        }
    }

    /// The patch that puts Tasks into a session and the root that it shares them with, where both
    /// still hold the Tasks that the caller has seen.
    pub fn update_task_list_control_planes_if_version_and_publish(
        session_id: &str,
        shared_session_id: &str,
        local: Result<Option<Session>, StorageError>,
        shared: Result<Option<Session>, StorageError>,
        expected_version: &str,
        expected_task_list: &str,
        task_list: &str,
        version: &str,
    ) -> (r: Result<Option<TaskPairPatch>, StorageError>)
        ensures
            pair_patch_view(r) == conditional_pair_patch(
                session_id@,
                shared_session_id@,
                task_journal::load_view(local),
                task_journal::load_view(shared),
                expected_task_list@,
                expected_version@,
                task_list@,
                version@,
            ),
    {
        let a = match local {
            Err(e) => {
                return Err(e);
            },
            Ok(None) => {
                return Ok(None);
            },
            Ok(Some(a)) => a,
        };
        let b = match shared {
            Err(e) => {
                return Err(e);
            },
            Ok(None) => {
                return Ok(None);
            },
            Ok(Some(b)) => b,
        };
        if !has_tasks(&a, expected_task_list, expected_version) || !has_tasks(
            &b,
            expected_task_list,
            expected_version,
        ) {
            return Ok(None);
        }
        Ok(
            Some(
                TaskPairPatch {
                    local: make_patch(a, task_list, version),
                    shared: make_patch(b, task_list, version),
                    local_first: less(session_id, shared_session_id),
                },
            ),
        )
    }

    /// Whether the locks of a session and of its shared root are taken in that order; every pair
    /// of sessions has one order, whoever asks.
    pub fn local_lock_first(session_id: &str, shared_session_id: &str) -> (r: bool)
        ensures
            r == text::text_less(session_id@, shared_session_id@),
    {
        less(session_id, shared_session_id)
    }

    /// What an authoritative metadata edit writes: the caller's session as it is, whatever is
    /// durable. The caller has edited the latest session, so nothing is merged.
    pub fn commit_metadata(session: &Session) -> (r: Session)
        ensures
            r@ == session@,
    {
        session.duplicate()
    }

    /// A full save of a running session. Where `adopt_bypass` is false the caller's permission
    /// mode stays as it is.
    pub fn merge_save_runtime_inner_and_publish(
        session: &Session,
        latest: Result<Option<Session>, StorageError>,
        inbox: InboxOutcome,
        disk_audit: &Option<Vec<AuditEntry>>,
        adopt_bypass: bool,
    ) -> (r: PublishingSave)
        ensures
            r@ == publishing::publishing_start(
                SaveKind::Full,
                PublishRule::Tried,
                fully_merged(
                    session@,
                    task_journal::load_view(latest),
                    inbox@,
                    session_merge::opt_entries(*disk_audit),
                    adopt_bypass,
                ),
                when_loaded(task_journal::load_view(latest)),
            ),
    {
        let mut merged = session.duplicate();
        let prepared = match latest {
            Err(e) => Err(e),
            Ok(None) => Ok(()),
            Ok(Some(l)) => {
                if adopt_bypass {
                    merge_authoritative_metadata_into_stale(&mut merged, &l, inbox, disk_audit);
                } else {
                    let none: Option<Vec<AuditEntry>> = None;
                    merge_authoritative_metadata_into_stale(&mut merged, &l, inbox, &none);
                }
                Ok(())
            },
        };
        PublishingSave::begin(SaveKind::Full, PublishRule::Tried, merged, prepared)
    }

    /// A full save of a running session: the durable permission posture stays where it is
    /// fresher. Where what is durable cannot be loaded nothing is saved or published; otherwise
    /// the callback runs once, whether or not the save succeeds.
    pub fn merge_save_runtime(
        session: &Session,
        latest: Result<Option<Session>, StorageError>,
        inbox: InboxOutcome,
        disk_audit: &Option<Vec<AuditEntry>>,
    ) -> (r: PublishingSave)
        ensures
            r@ == publishing::publishing_start(
                SaveKind::Full,
                PublishRule::Tried,
                fully_merged(
                    session@,
                    task_journal::load_view(latest),
                    inbox@,
                    session_merge::opt_entries(*disk_audit),
                    true,
                ),
                when_loaded(task_journal::load_view(latest)),
            ),
    {
        Self::merge_save_runtime_inner_and_publish(session, latest, inbox, disk_audit, true)
    }

    /// A full save whose caller decides the permission posture.
    pub fn save_runtime_authoritative_flags(
        session: &Session,
        latest: Result<Option<Session>, StorageError>,
        inbox: InboxOutcome,
    ) -> (r: PublishingSave)
        ensures
            r@ == publishing::publishing_start(
                SaveKind::Full,
                PublishRule::Tried,
                fully_merged(session@, task_journal::load_view(latest), inbox@, None, false),
                when_loaded(task_journal::load_view(latest)),
            ),
    {
        let none: Option<Vec<AuditEntry>> = None;
        Self::merge_save_runtime_inner_and_publish(session, latest, inbox, &none, false)
    }

    /// A checkpoint of a running session: refused where its ledger is stale, and with messages
    /// that were only ever appended to. Where it is refused, or what is durable cannot be loaded,
    /// nothing is saved or published; otherwise the callback runs once, whether or not the save
    /// succeeds.
    pub fn checkpoint_runtime_session_and_publish(
        session: &Session,
        latest: Result<Option<Session>, StorageError>,
        inbox: InboxOutcome,
        disk_audit: &Option<Vec<AuditEntry>>,
    ) -> (r: PublishingSave)
        ensures
            r@ == publishing::publishing_start(
                SaveKind::Full,
                PublishRule::Tried,
                checkpointed(
                    session@,
                    task_journal::load_view(latest),
                    inbox@,
                    session_merge::opt_entries(*disk_audit),
                ),
                checkpoint_prepared(session@, task_journal::load_view(latest)),
            ),
    {
        let mut merged = session.duplicate();
        let prepared = match latest {
            Err(e) => Err(e),
            Ok(None) => Ok(()),
            Ok(Some(l)) => match ensure_model_context_checkpoint_is_current(session, &l) {
                Err(e) => Err(e),
                Ok(_) => {
                    merged.messages = inbox.messages;
                    merged.runtime_metadata = inbox.runtime_metadata;
                    assert(merged@ =~= session_merge::with_inbox(session@, inbox@));
                    apply_authoritative_metadata(&mut merged, &l);
                    adopt_fresher_disk_permission_posture(&mut merged, &l, disk_audit);
                    Ok(())
                },
            },
        };
        PublishingSave::begin(SaveKind::Full, PublishRule::Tried, merged, prepared)
    }

    /// Prepares a worker's session for one activation, and gives the audit record to be written
    /// into its metadata. `incoming` and `durable` are the complete audit records of the session
    /// and of the durable one, and `next` the audit revision above both.
    pub fn seed_runtime_activation_and_publish(
        session: &mut Session,
        latest: &Result<Option<Session>, StorageError>,
        inbox: InboxOutcome,
        incoming: Option<PermissionAudit>,
        durable: &Option<PermissionAudit>,
        next: Result<u64, String>,
    ) -> (r: Result<PermissionAudit, StorageError>)
        ensures
            error::result_view(r) == seed_answer(
                task_journal::load_view(*latest),
                session::opt_view(incoming),
                session::opt_view(*durable),
                next_view(next),
            ),
            final(session)@ == seeded_session(
                old(session)@,
                task_journal::load_view(*latest),
                inbox@,
                session::opt_view(incoming),
                r is Ok,
            ),
    {
        let mut audit = match incoming {
            None => {
                return Err(
                    StorageError::new(
                        ErrorKind::InvalidInput,
                        "activation seed requires a complete permission audit record".to_owned(),
                    ),
                );
            },
            Some(a) => a,
        };
        let ghost asked = audit@;
        match latest {
            Err(e) => {
                return Err(e.clone());
            },
            Ok(None) => {},
            Ok(Some(l)) => {
                apply_authoritative_metadata(session, l);
                let ghost merged = session@;
                session.messages = inbox.messages;
                session.runtime_metadata = inbox.runtime_metadata;
                assert(session@ =~= session_merge::with_inbox(merged, inbox@));
                match durable {
                    Some(d) => {
                        if same_text(&d.resolution, &audit.resolution) {
                            audit.transitioned_at = clone_opt(&d.transitioned_at);
                        }
                    },
                    None => {},
                }
                match next {
                    Err(e) => {
                        return Err(StorageError::new(ErrorKind::InvalidData, e));
                    },
                    Ok(n) => {
                        audit.audit_revision = n;
                        assert(audit@ =~= activation_audit(asked, session::opt_view(*durable), n));
                    },
                }
            },
        }
        session.set_permission_mode(audit.requested);
        Ok(audit)
    }

    /// The save of an activation whose session was prepared: `seeded` is the audit record to be
    /// written into it, or why it could not be prepared. In that case nothing is saved or
    /// published; otherwise the callback runs once, whether or not the save succeeds.
    pub fn activation_save(session: Session, seeded: Result<Vec<AuditEntry>, StorageError>) -> (r:
        PublishingSave)
        ensures
            r@ == publishing::publishing_start(
                SaveKind::Full,
                PublishRule::Tried,
                activated(session@, seeded),
                activation_prepared(seeded),
            ),
    {
        let mut session = session;
        let prepared = match seeded {
            Ok(entries) => {
                write_audit(&mut session, &entries);
                Ok(())
            },
            Err(e) => Err(e),
        };
        PublishingSave::begin(SaveKind::Full, PublishRule::Tried, session, prepared)
    }

    /// How the posture to be seeded differs from that of the durable session, whose complete
    /// audit record is `previous`.
    pub fn permission_transition(
        latest: &Session,
        previous: &Option<PermissionAudit>,
        seed: &PermissionSeed,
        now: crate::time::Timestamp,
    ) -> (r: PermissionTransition)
        ensures
            r.mode_changed == (latest@.permission_mode() != seed.requested),
            session::opt_text(r.transitioned_at) == transition_date(
                session::opt_view(*previous),
                seed.resolution@,
                now,
            ),
    {
        let mode_changed = latest.effective_permission_mode() != seed.requested;
        let posture_changed = match previous {
            Some(p) => !same_text(&p.resolution, &seed.resolution),
            None => true,
        };
        let transitioned_at = if posture_changed {
            rfc3339(now)
        } else {
            None
        };
        PermissionTransition { mode_changed, transitioned_at }
    }

    /// Re-seeds the posture of a session. `recorded` is the audit record for the seed and the
    /// time of the transition, or the text of why there is none.
    pub fn update_authoritative_permission_posture_and_publish(
        latest: &mut Session,
        seed: &PermissionSeed,
        transition: &PermissionTransition,
        recorded: Result<Vec<AuditEntry>, String>,
    ) -> (r: Result<(), StorageError>)
        ensures
            error::plain_view(r) == match recorded {
                Ok(_) => Ok(()),
                Err(e) => Err(error::plain_error(ErrorKind::InvalidData, e@)),
            },
            final(latest)@ == match recorded {
                Ok(entries) => reseeded(
                    old(latest)@,
                    seed.requested,
                    transition.mode_changed,
                    entries@,
                ),
                Err(_) => old(latest)@.with_permission_mode(seed.requested),
            },
    {
        latest.set_permission_mode(seed.requested);
        match recorded {
            Err(e) => Err(StorageError::new(ErrorKind::InvalidData, e)),
            Ok(entries) => {
                write_audit(latest, &entries);
                if transition.mode_changed {
                    latest.metadata_version = latest.metadata_version.saturating_add(1);
                }
                assert(latest@ =~= reseeded(
                    old(latest)@,
                    seed.requested,
                    transition.mode_changed,
                    entries@,
                ));
                Ok(())
            },
        }
    }

    /// Whether a worker's posture may be recorded: only while the durable audit is the one that
    /// was dispatched, and the resolution agrees with the durable mode and with itself.
    pub fn check_permission_posture_activation(
        latest: &Session,
        durable_revision: Option<u64>,
        expected_audit_revision: Option<u64>,
        seed: &PermissionSeed,
    ) -> (r: Result<(), StorageError>)
        ensures
            error::plain_view(r) == posture_check(
                latest@,
                durable_revision,
                expected_audit_revision,
                seed.requested,
                seed.consistent,
            ),
    {
        let current = match (durable_revision, expected_audit_revision) {
            (None, None) => true,
            (Some(a), Some(b)) => a == b,
            _ => false,
        };
        if !current {
            return Err(
                StorageError::new(
                    ErrorKind::InvalidData,
                    "stale permission posture activation: durable audit changed after dispatch".to_owned(),
                ),
            );
        }
        if latest.effective_permission_mode() != seed.requested || !seed.consistent {
            return Err(
                StorageError::new(
                    ErrorKind::InvalidData,
                    "stale or inconsistent permission posture activation".to_owned(),
                ),
            );
        }
        Ok(())
    }

    /// Records a worker's posture in the session. `recorded` is the audit record for the seed, or
    /// the text of why there is none.
    pub fn record_permission_posture_activation_and_publish(
        latest: &mut Session,
        durable_revision: Option<u64>,
        expected_audit_revision: Option<u64>,
        seed: &PermissionSeed,
        recorded: Result<Vec<AuditEntry>, String>,
    ) -> (r: Result<(), StorageError>)
        ensures
            error::plain_view(r) == match posture_check(
                old(latest)@,
                durable_revision,
                expected_audit_revision,
                seed.requested,
                seed.consistent,
            ) {
                Err(e) => Err(e),
                Ok(_) => match recorded {
                    Ok(_) => Ok(()),
                    Err(e) => Err(error::plain_error(ErrorKind::InvalidData, e@)),
                },
            },
            final(latest)@ == if r is Ok {
                session_merge::with_audit(old(latest)@, recorded->Ok_0@)
            } else {
                old(latest)@
            },
    {
        match LockedSessionStore::check_permission_posture_activation(
            latest,
            durable_revision,
            expected_audit_revision,
            seed,
        ) {
            Err(e) => {
                return Err(e);
            },
            Ok(_) => {},
        }
        match recorded {
            Err(e) => Err(StorageError::new(ErrorKind::InvalidData, e)),
            Ok(entries) => {
                write_audit(latest, &entries);
                Ok(())
            },
        }
    }

    /// The session without the messages that wait to be injected, where these are exactly the
    /// expected ones: `current` is what the session holds of them.
    pub fn clear_legacy_pending_messages_and_publish(
        latest: Session,
        current: &Option<Vec<String>>,
        expected: &Vec<String>,
    ) -> (r: Option<Session>)
        ensures
            session::opt_view(r) == pending_cleared(
                latest@,
                session::opt_texts(*current),
                text::texts(expected@),
            ),
    {
        let same = match current {
            Some(c) => same_texts(c, expected),
            None => false,
        };
        if !same {
            return None;
        }
        let ghost before = latest@;
        let mut session = latest;
        drop_text(&mut session.metadata, "pending_injected_messages");
        let metadata = match session.runtime_metadata.take() {
            Some(m) => {
                let mut m = m;
                m.pending_injected_messages = None;
                Some(m)
            },
            None => None,
        };
        session.runtime_metadata = drop_if_empty(metadata);
        assert(session@ =~= without_pending(before));
        Some(session)
    }
}

// ------------------------------------------------------------------------------ laws

/// A paired Task patch gives both sessions the same Tasks and changes nothing else in either; it
/// comes about only where both hold what the caller has seen.
pub proof fn a_paired_patch_is_narrow(
    session_id: Seq<char>,
    shared_session_id: Seq<char>,
    a: SessionView,
    b: SessionView,
    expected_list: Seq<char>,
    expected_generation: Seq<char>,
    list: Seq<char>,
    generation: Seq<char>,
    p: TaskPairPatchView,
)
    requires
        conditional_pair_patch(
            session_id,
            shared_session_id,
            Ok(Some(a)),
            Ok(Some(b)),
            expected_list,
            expected_generation,
            list,
            generation,
        ) == Ok::<Option<TaskPairPatchView>, ErrorView>(Some(p)),
    ensures
        task_journal::same_tasks(a, b),
        p.local.original == a,
        p.shared.original == b,
        task_journal::same_tasks(p.local.updated, p.shared.updated),
        p.local.updated.without_tasks() == a.without_tasks(),
        p.shared.updated.without_tasks() == b.without_tasks(),
{
    crate::session::setting_tasks_changes_only_tasks(a, Some(list), generation);
    crate::session::setting_tasks_changes_only_tasks(b, Some(list), generation);
}

/// A paired Task patch publishes exactly what it commits: the callback runs, with the session
/// before the shared root, if and only if the answer is true, and that is so only where both
/// sessions were there with the Tasks that the caller has seen and the commit was made good. A
/// session that is missing or holds other Tasks makes the answer false, and nothing is committed.
pub proof fn a_pair_publishes_what_it_commits(
    session_id: Seq<char>,
    shared_session_id: Seq<char>,
    local: Option<SessionView>,
    shared: Option<SessionView>,
    expected_list: Seq<char>,
    expected_generation: Seq<char>,
    list: Seq<char>,
    generation: Seq<char>,
    saved: Result<bool, ErrorView>,
)
    ensures
        ({
            let plan = conditional_pair_patch(
                session_id,
                shared_session_id,
                Ok(local),
                Ok(shared),
                expected_list,
                expected_generation,
                list,
                generation,
            );
            let out = pair_outcome(plan, saved);
            let seen = local is Some && shared is Some && holds_tasks(
                local->0,
                expected_list,
                expected_generation,
            ) && holds_tasks(shared->0, expected_list, expected_generation);
            &&& plan is Ok && (plan->Ok_0 is Some <==> seen)
            &&& out.publish is Some <==> out.answer == Ok::<bool, ErrorView>(true)
            &&& out.publish is Some <==> seen && saved == Ok::<bool, ErrorView>(true)
            &&& out.publish is Some ==> out.publish->0 == (
                local->0.with_tasks(Some(list), generation),
                shared->0.with_tasks(Some(list), generation),
            )
            &&& !seen ==> out.answer == Ok::<bool, ErrorView>(false)
            &&& seen ==> out.answer == saved && pair_in_order(plan->Ok_0->0) == if text::text_less(
                session_id,
                shared_session_id,
            ) {
                (task_patch(local->0, list, generation), task_patch(shared->0, list, generation))
            } else {
                (task_patch(shared->0, list, generation), task_patch(local->0, list, generation))
            }
        }),
{
}

/// A session whose durable control plane cannot be loaded is neither saved nor published by any
/// save that merges what is durable, and stays as the caller has it.
pub proof fn a_failed_load_ends_a_save(
    s: SessionView,
    e: ErrorView,
    inbox: InboxView,
    audit: Option<Seq<AuditEntry>>,
    adopt_bypass: bool,
    kind: SaveKind,
    events: Seq<publishing::PublishEvent>,
)
    ensures
        control_plane_merged(s, Err(e), audit) == s,
        fully_merged(s, Err(e), inbox, audit, adopt_bypass) == s,
        checkpointed(s, Err(e), inbox, audit) == s,
        when_loaded(Err(e)) == Err::<(), ErrorView>(e),
        checkpoint_prepared(s, Err(e)) == Err::<(), ErrorView>(e),
        ({
            let start = publishing::publishing_start(kind, PublishRule::Tried, s, Err(e));
            &&& publishing::publishing_history(start, events) == start
            &&& publishing::publications(start, events) == 0
            &&& start.save.failure == Some(e)
        }),
{
    publishing::an_unprepared_save_does_nothing(kind, PublishRule::Tried, s, e, events);
}

/// An activation takes over the metadata group and the inbox of the durable session alone: the
/// ledger stays the caller's.
pub proof fn an_activation_keeps_its_ledger(s: SessionView, latest: SessionView, inbox: InboxView)
    ensures
        activation_base(s, latest, inbox).model_context_state == s.model_context_state,
        activation_base(s, latest, inbox).agent_runtime_state == s.agent_runtime_state,
        activation_base(s, latest, inbox).messages == inbox.messages,
{
}

/// Two different sessions have one lock order, whichever of them asks: no two writers can wait
/// for one another.
pub proof fn lock_order_is_one(a: Seq<char>, b: Seq<char>)
    requires
        a != b,
    ensures
        text::text_less(a, b) != text::text_less(b, a),
{
    text::lemma_less_total(a, b);
    if text::text_less(a, b) {
        text::lemma_less_asymmetric(a, b);
    } else {
        text::lemma_less_asymmetric(b, a);
    }
}

/// No save of a running session takes a fresher permission posture back: where the durable session
/// has runtime state and the audit finds it fresher, a save of the control plane, a full save and a
/// checkpoint all write the durable mode, and metadata that says what the durable audit record last
/// says.
pub proof fn a_fresher_posture_survives_every_save(
    s: SessionView,
    latest: SessionView,
    inbox: InboxView,
    entries: Seq<AuditEntry>,
    i: int,
)
    requires
        latest.agent_runtime_state is Some,
        session_merge::last_word(entries, i),
    ensures
        ({
            let mode = latest.agent_runtime_state->0.permission_mode;
            let key = entries[i].key@;
            let runtime = control_plane_merged(s, Ok(Some(latest)), Some(entries));
            let full = fully_merged(s, Ok(Some(latest)), inbox, Some(entries), true);
            let checkpoint = checkpointed(s, Ok(Some(latest)), inbox, Some(entries));
            &&& runtime.permission_mode() == mode && full.permission_mode() == mode
            &&& entries[i].value is Some ==> runtime.metadata.contains_key(key)
                && runtime.metadata[key] == entries[i].value->0@ && full.metadata.contains_key(key)
                && full.metadata[key] == entries[i].value->0@
            &&& entries[i].value is None ==> !runtime.metadata.contains_key(key)
                && !full.metadata.contains_key(key)
            &&& checkpoint_prepared(s, Ok(Some(latest))) is Ok ==> checkpoint.permission_mode()
                == mode && (entries[i].value is Some ==> checkpoint.metadata.contains_key(key)
                && checkpoint.metadata[key] == entries[i].value->0@) && (entries[i].value is None
                ==> !checkpoint.metadata.contains_key(key))
        }),
{
    let m = session_merge::merged_metadata(s, latest).metadata;
    crate::session_merge::an_audit_record_is_carried(m, entries, entries[i].key@);
    let c = session_merge::merged_metadata(session_merge::with_inbox(s, inbox), latest).metadata;
    crate::session_merge::an_audit_record_is_carried(c, entries, entries[i].key@);
}

/// A posture that is not fresher is not taken over: the caller's mode is written, as it is by a
/// save whose caller decides the posture.
pub proof fn a_posture_that_is_not_fresher_stays(
    s: SessionView,
    latest: SessionView,
    inbox: InboxView,
    audit: Option<Seq<AuditEntry>>,
)
    ensures
        control_plane_merged(s, Ok(Some(latest)), None).agent_runtime_state
            == s.agent_runtime_state,
        fully_merged(s, Ok(Some(latest)), inbox, None, true).agent_runtime_state
            == s.agent_runtime_state,
        fully_merged(s, Ok(Some(latest)), inbox, audit, false).agent_runtime_state
            == s.agent_runtime_state,
        checkpointed(s, Ok(Some(latest)), inbox, None).agent_runtime_state
            == s.agent_runtime_state,
{
}

/// A save of the control plane alone keeps everything of the caller's but the metadata group, the
/// posture and the ledger, which is always the durable one; so a full snapshot of a running session
/// never takes a durable title, pin or ledger back.
pub proof fn a_control_plane_save_keeps_the_rest(
    s: SessionView,
    latest: SessionView,
    audit: Option<Seq<AuditEntry>>,
)
    ensures
        ({
            let m = control_plane_merged(s, Ok(Some(latest)), audit);
            &&& m.model_context_state == latest.model_context_state
            &&& latest.metadata_version >= s.metadata_version ==> m.title == latest.title
                && m.title_version == latest.title_version && m.title_generated
                == latest.title_generated && m.pinned == latest.pinned && m.metadata_version
                == latest.metadata_version
            &&& latest.metadata_version < s.metadata_version ==> m.title == s.title
                && m.title_version == s.title_version && m.title_generated == s.title_generated
                && m.pinned == s.pinned && m.metadata_version == s.metadata_version
            &&& (SessionView {
                title: s.title,
                title_version: s.title_version,
                title_generated: s.title_generated,
                pinned: s.pinned,
                metadata_version: s.metadata_version,
                metadata: s.metadata,
                agent_runtime_state: s.agent_runtime_state,
                model_context_state: s.model_context_state,
                ..m
            }) == s
        }),
        control_plane_merged(s, Ok(None), audit) == s,
        when_loaded(Ok(None)) is Ok,
        when_loaded(Ok(Some(latest))) is Ok,
{
}

/// A checkpoint is refused exactly where its ledger is stale. One that is taken keeps the caller's
/// ledger and everything else but the metadata group, what the inbox rules decide, and the posture.
pub proof fn a_checkpoint_keeps_the_rest(
    s: SessionView,
    latest: SessionView,
    inbox: InboxView,
    audit: Option<Seq<AuditEntry>>,
)
    ensures
        checkpoint_prepared(s, Ok(Some(latest))) is Err <==> session_merge::ledger_is_stale(
            s,
            latest,
        ),
        checkpoint_prepared(s, Ok(None)) is Ok,
        checkpointed(s, Ok(None), inbox, audit) == s,
        checkpoint_prepared(s, Ok(Some(latest))) is Ok ==> {
            let m = checkpointed(s, Ok(Some(latest)), inbox, audit);
            &&& m.messages == inbox.messages && m.runtime_metadata == inbox.runtime_metadata
            &&& m.model_context_state == s.model_context_state
            &&& latest.metadata_version >= s.metadata_version ==> m.title == latest.title
                && m.pinned == latest.pinned && m.metadata_version == latest.metadata_version
            &&& latest.metadata_version < s.metadata_version ==> m.title == s.title && m.pinned
                == s.pinned && m.metadata_version == s.metadata_version
            &&& (SessionView {
                title: s.title,
                title_version: s.title_version,
                title_generated: s.title_generated,
                pinned: s.pinned,
                metadata_version: s.metadata_version,
                metadata: s.metadata,
                messages: s.messages,
                runtime_metadata: s.runtime_metadata,
                agent_runtime_state: s.agent_runtime_state,
                ..m
            }) == s
        },
{
}

/// An unconditional Task patch is made wherever it takes nothing back, refused where it does, and
/// does nothing where there is no session; a conditional one is made exactly where the session
/// holds the Tasks that the caller has seen. Either gives the session the list and the generation
/// asked for, and changes nothing else.
pub proof fn a_task_patch_brings_its_tasks(
    id: Seq<char>,
    s: SessionView,
    expected_list: Seq<char>,
    expected_generation: Seq<char>,
    list: Seq<char>,
    generation: Seq<char>,
)
    ensures
        ({
            let plain = unconditional_patch(id, Ok(Some(s)), list, generation);
            let conditional = conditional_patch(
                Ok(Some(s)),
                expected_list,
                expected_generation,
                list,
                generation,
            );
            &&& plain is Err <==> session_merge::task_patch_regresses(s, list, generation)
            &&& plain is Ok ==> plain->Ok_0 is Some && plain->Ok_0->0.original == s
                && plain->Ok_0->0.updated.task_list == Some(list)
                && plain->Ok_0->0.updated.task_generation() == Some(generation)
                && plain->Ok_0->0.updated.without_tasks() == s.without_tasks()
            &&& conditional is Ok
            &&& conditional->Ok_0 is Some <==> s.task_list == Some(expected_list)
                && s.task_generation() == Some(expected_generation)
            &&& conditional->Ok_0 is Some ==> conditional->Ok_0->0.original == s
                && conditional->Ok_0->0.updated.task_list == Some(list)
                && conditional->Ok_0->0.updated.task_generation() == Some(generation)
                && conditional->Ok_0->0.updated.without_tasks() == s.without_tasks()
        }),
        unconditional_patch(id, Ok(None), list, generation) == Ok::<
            Option<TaskPatchView>,
            ErrorView,
        >(None),
        conditional_patch(Ok(None), expected_list, expected_generation, list, generation) == Ok::<
            Option<TaskPatchView>,
            ErrorView,
        >(None),
{
    crate::session::setting_tasks_changes_only_tasks(s, Some(list), generation);
}

/// A paired Task patch gives both sessions the list and the generation asked for.
pub proof fn a_paired_patch_brings_its_tasks(
    session_id: Seq<char>,
    shared_session_id: Seq<char>,
    a: SessionView,
    b: SessionView,
    expected_list: Seq<char>,
    expected_generation: Seq<char>,
    list: Seq<char>,
    generation: Seq<char>,
)
    ensures
        ({
            let r = conditional_pair_patch(
                session_id,
                shared_session_id,
                Ok(Some(a)),
                Ok(Some(b)),
                expected_list,
                expected_generation,
                list,
                generation,
            );
            &&& r is Ok
            &&& r->Ok_0 is Some <==> a.task_list == Some(expected_list) && a.task_generation()
                == Some(expected_generation) && b.task_list == Some(expected_list)
                && b.task_generation() == Some(expected_generation)
            &&& r->Ok_0 is Some ==> {
                let p = r->Ok_0->0;
                &&& p.local.original == a && p.shared.original == b
                &&& p.local.updated.task_list == Some(list)
                &&& p.local.updated.task_generation() == Some(generation)
                &&& p.shared.updated.task_list == Some(list)
                &&& p.shared.updated.task_generation() == Some(generation)
                &&& p.local.updated.without_tasks() == a.without_tasks()
                &&& p.shared.updated.without_tasks() == b.without_tasks()
                &&& text::text_less(session_id, shared_session_id) ==> pair_in_order(p) == (
                    p.local,
                    p.shared,
                )
                &&& !text::text_less(session_id, shared_session_id) ==> pair_in_order(p) == (
                    p.shared,
                    p.local,
                )
            }
        }),
{
    crate::session::setting_tasks_changes_only_tasks(a, Some(list), generation);
    crate::session::setting_tasks_changes_only_tasks(b, Some(list), generation);
}

/// A Task patch publishes the updated session exactly where its save was made good, and then
/// answers true; one without a patch answers false, and a failure is answered as it is.
pub proof fn a_patch_publishes_what_it_saves(
    id: Seq<char>,
    plan: Result<Option<TaskPatchView>, ErrorView>,
    saved: Result<bool, ErrorView>,
)
    ensures
        ({
            let out = patch_outcome(plan, saved);
            &&& out.publish is Some <==> out.answer == Ok::<bool, ErrorView>(true)
            &&& out.publish is Some ==> plan is Ok && plan->Ok_0 is Some && out.publish->0
                == plan->Ok_0->0.updated
            &&& plan is Err ==> out.answer == Err::<bool, ErrorView>(plan->Err_0)
            &&& plan is Ok && plan->Ok_0 is None ==> out.answer == Ok::<bool, ErrorView>(false)
            &&& plan is Ok && plan->Ok_0 is Some ==> out.answer == saved
        }),
        unconditional_saved(id, Ok(true)) == Ok::<bool, ErrorView>(true),
        unconditional_saved(id, Ok(false)) is Err,
        unconditional_saved(id, Ok(false))->Err_0.kind == ErrorKind::WouldBlock,
        saved is Err ==> unconditional_saved(id, saved) == saved,
{
}

/// The revision that the next audit record has to exceed is the greater of the two there are.
pub proof fn the_audit_floor_covers_both(
    incoming: PermissionAuditView,
    durable: Option<PermissionAuditView>,
)
    ensures
        audit_floor(incoming, durable) >= incoming.audit_revision,
        durable is Some ==> audit_floor(incoming, durable) >= durable->0.audit_revision,
        audit_floor(incoming, durable) == incoming.audit_revision || (durable is Some
            && audit_floor(incoming, durable) == durable->0.audit_revision),
{
}

/// An activation's audit record carries the given revision and the incoming resolution and mode;
/// its time of transition is the durable one exactly where the resolution has not changed.
pub proof fn an_activation_dates_true_transitions(
    incoming: PermissionAuditView,
    durable: Option<PermissionAuditView>,
    revision: u64,
)
    ensures
        ({
            let a = activation_audit(incoming, durable, revision);
            &&& a.audit_revision == revision && a.resolution == incoming.resolution
            &&& a.requested == incoming.requested
            &&& durable is Some && durable->0.resolution == incoming.resolution
                ==> a.transitioned_at == durable->0.transitioned_at
            &&& durable is None || durable->0.resolution != incoming.resolution
                ==> a.transitioned_at == incoming.transitioned_at
        }),
{
}

/// An activation keeps everything of the caller's but the metadata group and what the inbox rules
/// decide.
pub proof fn an_activation_keeps_the_rest(s: SessionView, latest: SessionView, inbox: InboxView)
    ensures
        ({
            let m = activation_base(s, latest, inbox);
            &&& m.messages == inbox.messages && m.runtime_metadata == inbox.runtime_metadata
            &&& latest.metadata_version >= s.metadata_version ==> m.title == latest.title
                && m.pinned == latest.pinned && m.metadata_version == latest.metadata_version
            &&& latest.metadata_version < s.metadata_version ==> m.title == s.title && m.pinned
                == s.pinned && m.metadata_version == s.metadata_version
            &&& (SessionView {
                title: s.title,
                title_version: s.title_version,
                title_generated: s.title_generated,
                pinned: s.pinned,
                metadata_version: s.metadata_version,
                metadata: s.metadata,
                messages: s.messages,
                runtime_metadata: s.runtime_metadata,
                ..m
            }) == s
        }),
{
}

/// A re-seeded posture has the requested mode and carries its audit record; a true change of mode
/// raises the metadata version by one, short of the last, anything else leaves it, and the rest of
/// the session stays.
pub proof fn a_reseeded_posture_is_recorded(
    s: SessionView,
    requested: SessionPermissionMode,
    mode_changed: bool,
    entries: Seq<AuditEntry>,
    i: int,
)
    ensures
        ({
            let r = reseeded(s, requested, mode_changed, entries);
            &&& r.permission_mode() == requested
            &&& mode_changed && s.metadata_version < u64::MAX ==> r.metadata_version
                == s.metadata_version + 1
            &&& !mode_changed || s.metadata_version == u64::MAX ==> r.metadata_version
                == s.metadata_version
            &&& session_merge::last_word(entries, i) && entries[i].value is Some
                ==> r.metadata.contains_key(entries[i].key@) && r.metadata[entries[i].key@]
                == entries[i].value->0@
            &&& session_merge::last_word(entries, i) && entries[i].value is None
                ==> !r.metadata.contains_key(entries[i].key@)
            &&& (SessionView {
                agent_runtime_state: s.agent_runtime_state,
                metadata: s.metadata,
                metadata_version: s.metadata_version,
                ..r
            }) == s
        }),
{
    crate::session_merge::an_audit_record_is_carried(s.metadata, entries, entries[i].key@);
}

/// A worker's posture is recorded exactly while the durable audit is the one that was dispatched,
/// the durable mode is the requested one and the resolution agrees with itself.
pub proof fn a_stale_posture_is_not_recorded(
    s: SessionView,
    durable_revision: Option<u64>,
    expected_revision: Option<u64>,
    requested: SessionPermissionMode,
    consistent: bool,
)
    ensures
        posture_check(s, durable_revision, expected_revision, requested, consistent) is Ok
            <==> durable_revision == expected_revision && s.permission_mode() == requested
            && consistent,
{
}

/// Clearing the messages that wait to be injected clears these alone, in both places in which they
/// can stand.
pub proof fn only_pending_messages_are_cleared(s: SessionView, key: Seq<char>)
    requires
        key != "pending_injected_messages"@,
    ensures
        ({
            let r = without_pending(s);
            &&& !r.metadata.contains_key("pending_injected_messages"@)
            &&& r.metadata.contains_key(key) == s.metadata.contains_key(key)
            &&& s.metadata.contains_key(key) ==> r.metadata[key] == s.metadata[key]
            &&& r.runtime_metadata is Some ==> s.runtime_metadata is Some
                && r.runtime_metadata->0.pending_injected_messages is None
                && (SessionRuntimeMetadataView {
                pending_injected_messages: s.runtime_metadata->0.pending_injected_messages,
                ..r.runtime_metadata->0
            }) == s.runtime_metadata->0
            &&& r.runtime_metadata is None && s.runtime_metadata is Some
                ==> (SessionRuntimeMetadataView {
                pending_injected_messages: None,
                ..s.runtime_metadata->0
            }).empty()
            &&& (SessionView {
                metadata: s.metadata,
                runtime_metadata: s.runtime_metadata,
                ..r
            }) == s
        }),
{
}

/// A save that loses to a newer Task generation is tried again with the durable Tasks, up to three
/// times; any other failure ends it at once.
pub proof fn a_lost_save_is_tried_again(s: RebaseView, e: ErrorView, durable: SessionView)
    ensures
        session_merge::task_save_conflict(e) ==> rebase_saved(s, Err(e)).step == RebaseStep::Reload
            && rebase_saved(s, Err(e)).conflict == Some(e),
        !session_merge::task_save_conflict(e) ==> rebase_saved(s, Err(e)).step
            == RebaseStep::Finished && rebase_saved(s, Err(e)).failure == Some(e),
        ({
            let r = rebase_reloaded(s, Ok(Some(durable)));
            &&& r.session.task_list == durable.task_list
            &&& r.session.task_generation() == durable.task_generation()
            &&& r.session.without_tasks() == s.session.without_tasks()
            &&& s.attempt < 3 ==> r.step == RebaseStep::Save && r.attempt == s.attempt + 1
            &&& s.attempt >= 3 ==> r.step == RebaseStep::Finished && r.failure == s.conflict
        }),
        rebase_reloaded(s, Ok(None)).step == RebaseStep::Finished && rebase_reloaded(
            s,
            Ok(None),
        ).failure == s.conflict,
        rebase_reloaded(s, Err(e)).step == RebaseStep::Finished && rebase_reloaded(
            s,
            Err(e),
        ).failure == Some(e),
{
    adopting_tasks_changes_only_tasks(s.session, durable);
}

/// What is said of these values is said of their own fields: none is left out or exchanged.
pub proof fn nothing_is_left_unseen(
    a: RebasingSave,
    b: TaskPatch,
    c: TaskPairPatch,
    d: PatchAnswer,
    e: PairAnswer,
    f: PermissionAudit,
    g: PermissionTransition,
)
    ensures
        a@.conflict is Some <==> a.conflict is Some,
        a.conflict is Some ==> a@.conflict->0 == a.conflict->0@,
        a@.failure is Some <==> a.failure is Some,
        a.failure is Some ==> a@.failure->0 == a.failure->0@,
        a@.session == a.session@ && a@.attempt == a.attempt,
        a@.step == a.step,
        b@.original == b.original@ && b@.updated == b.updated@,
        c@.local == c.local@ && c@.shared == c.shared@,
        c@.local_first == c.local_first,
        d@.publish is Some <==> d.publish is Some,
        d.publish is Some ==> d@.publish->0 == d.publish->0@,
        d@.answer is Ok <==> d.answer is Ok,
        d.answer is Ok ==> d@.answer->Ok_0 == d.answer->Ok_0,
        d.answer is Err ==> d@.answer->Err_0 == d.answer->Err_0@,
        e@.publish is Some <==> e.publish is Some,
        e.publish is Some ==> ({
            let (p, q) = e.publish->0;
            let (x, y) = e@.publish->0;
            x == p@ && y == q@
        }),
        e@.answer is Ok <==> e.answer is Ok,
        e.answer is Ok ==> e@.answer->Ok_0 == e.answer->Ok_0,
        e.answer is Err ==> e@.answer->Err_0 == e.answer->Err_0@,
        f@.transitioned_at is Some <==> f.transitioned_at is Some,
        f.transitioned_at is Some ==> f@.transitioned_at->0 == f.transitioned_at->0@,
        f@.resolution == f.resolution@ && f@.requested == f.requested,
        f@.audit_revision == f.audit_revision,
        g@.transitioned_at is Some <==> g.transitioned_at is Some,
        g.transitioned_at is Some ==> g@.transitioned_at->0 == g.transitioned_at->0@,
        g@.mode_changed == g.mode_changed,
{
}

/// What a patch comes to is seen as it is: the patch, nothing, or a failure.
pub proof fn patches_are_seen_whole(p: TaskPatch, q: TaskPairPatch, e: StorageError)
    ensures
        patch_view(Ok(Some(p))) == Ok::<Option<TaskPatchView>, ErrorView>(Some(p@)),
        patch_view(Ok(None)) == Ok::<Option<TaskPatchView>, ErrorView>(None),
        patch_view(Err(e)) == Err::<Option<TaskPatchView>, ErrorView>(e@),
        pair_patch_view(Ok(Some(q))) == Ok::<Option<TaskPairPatchView>, ErrorView>(Some(q@)),
        pair_patch_view(Ok(None)) == Ok::<Option<TaskPairPatchView>, ErrorView>(None),
        pair_patch_view(Err(e)) == Err::<Option<TaskPairPatchView>, ErrorView>(e@),
{
}

/// Seeding an activation fails without a complete record, where the durable session cannot be loaded,
/// or where there is one and no next revision; else it answers the record that was asked for, at
/// the next revision where a durable session stands, and sets the requested mode.
pub proof fn when_an_activation_is_seeded(
    s: SessionView,
    l: SessionView,
    inbox: InboxView,
    a: PermissionAuditView,
    durable: Option<PermissionAuditView>,
    n: u64,
    e: ErrorView,
    t: Seq<char>,
    next: Result<u64, Seq<char>>,
)
    ensures
        seed_answer(Ok(Some(l)), None, durable, next) is Err,
        seed_answer(Ok(Some(l)), None, durable, next)->Err_0.kind == ErrorKind::InvalidInput,
        seed_answer(Err(e), Some(a), durable, next) == Err::<PermissionAuditView, ErrorView>(e),
        seed_answer(Ok(None), Some(a), durable, next) == Ok::<PermissionAuditView, ErrorView>(a),
        seed_answer(Ok(Some(l)), Some(a), durable, Err(t)) is Err,
        seed_answer(Ok(Some(l)), Some(a), durable, Err(t))->Err_0.kind == ErrorKind::InvalidData,
        seed_answer(Ok(Some(l)), Some(a), durable, Err(t))->Err_0.message == t,
        seed_answer(Ok(Some(l)), Some(a), durable, Ok(n)) is Ok,
        seed_answer(Ok(Some(l)), Some(a), durable, Ok(n))->Ok_0.audit_revision == n,
        seed_answer(Ok(Some(l)), Some(a), durable, Ok(n))->Ok_0.requested == a.requested,
        seeded_session(s, Ok(Some(l)), inbox, None, true) == s,
        seeded_session(s, Ok(None), inbox, Some(a), true).permission_mode() == a.requested,
        seeded_session(s, Ok(Some(l)), inbox, Some(a), true).permission_mode() == a.requested,
        seeded_session(s, Err(e), inbox, Some(a), false) == s,
{
}

/// An activation saves the session with the record that it was seeded with, and nothing where it
/// could not be seeded. A posture is dated exactly where its resolution is another than the recorded
/// one. Pending messages are cleared exactly where they are the expected ones.
pub proof fn what_an_activation_saves(
    s: SessionView,
    entries: Vec<AuditEntry>,
    e: StorageError,
    previous: PermissionAuditView,
    resolution: Seq<char>,
    now: crate::time::Timestamp,
    current: Option<Seq<Seq<char>>>,
    expected: Seq<Seq<char>>,
)
    ensures
        activated(s, Ok(entries)) == session_merge::with_audit(s, entries@),
        activation_prepared(Ok(entries)) == Ok::<(), ErrorView>(()),
        activated(s, Err(e)) == s && activation_prepared(Err(e)) == Err::<(), ErrorView>(e@),
        previous.resolution == resolution ==> transition_date(Some(previous), resolution, now) is None,
        previous.resolution != resolution ==> transition_date(Some(previous), resolution, now)
            == transition_date(None, resolution, now),
        outside::in_calendar(now) ==> transition_date(None, resolution, now) == Some(
            outside::rfc3339_of(now.secs, now.nanos),
        ),
        !outside::in_calendar(now) ==> transition_date(None, resolution, now) is None,
        pending_cleared(s, Some(expected), expected) == Some(without_pending(s)),
        current != Some(expected) ==> pending_cleared(s, current, expected) is None,
{
}

/// A patch that lost is one to be tried again; a posture that is stale is invalid data.
pub proof fn how_a_patch_or_a_posture_is_refused(
    id: Seq<char>,
    s: SessionView,
    durable: Option<u64>,
    expected: Option<u64>,
    requested: SessionPermissionMode,
    consistent: bool,
)
    ensures
        patch_conflict(id).kind == ErrorKind::WouldBlock && !patch_conflict(id).authority_conflict,
        patch_conflict(id).message == "Task control-plane changed while patching session "@ + id,
        posture_check(s, durable, expected, requested, consistent) is Err <==> durable != expected
            || s.permission_mode() != requested || !consistent,
        posture_check(s, durable, expected, requested, consistent) is Err ==> posture_check(
            s,
            durable,
            expected,
            requested,
            consistent,
        )->Err_0.kind == ErrorKind::InvalidData,
{
}

} // verus!
