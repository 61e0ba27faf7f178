//! Opening a store: what has to be done, in order, before it may be used.
use crate::error::{ErrorView, StorageError};
use crate::error;
use crate::index::{OpenedIndex, OpenedIndexView, SessionsIndexView};
use crate::root_lifetime;
use crate::task_protocol;
use vstd::prelude::*;

verus! {

/// One step of opening a store.
#[derive(Debug, Clone, Copy, PartialEq, Eq, Structural)]
pub enum OpeningStep {
    CreateSessions,
    InitSearch,
    ClaimIndex,
    /// Read the index, and decide how it is opened.
    ReadIndex,
    /// Keep a damaged index file aside; a failure of this does not count.
    BackUpIndex,
    /// Write the opened index out, still under the claim.
    PublishIndex,
    ReleaseIndex,
    EnsureTaskJournals,
    EnsureCopyJournals,
    EnsureLocks,
    RecoverTasks,
    RecoverCopies,
    Rebuild,
    /// Take what belongs to revoked roots out of the index.
    ReconcileRevocations,
    Finished,
}

/// A store that is being opened.
pub struct StoreOpening {
    pub step: OpeningStep,
    /// How the index is opened, once it was read.
    pub back_up: bool,
    pub publish: bool,
    pub rebuild: bool,
    pub failure: Option<StorageError>,
}

/// What a [`StoreOpening`] holds.
#[verifier::ext_equal]
pub struct OpeningView {
    pub step: OpeningStep,
    pub back_up: bool,
    pub publish: bool,
    pub rebuild: bool,
    pub failure: Option<ErrorView>,
}

impl View for StoreOpening {
    type V = OpeningView;

    open spec fn view(&self) -> OpeningView {
        OpeningView {
            step: self.step,
            back_up: self.back_up,
            publish: self.publish,
            rebuild: self.rebuild,
            failure: task_protocol::opt_error(self.failure),
        }
    }
}

/// A store that nothing was done for yet.
pub open spec fn opening_start() -> OpeningView {
    OpeningView {
        step: OpeningStep::CreateSessions,
        back_up: false,
        publish: false,
        rebuild: false,
        failure: None,
    }
}

/// The step after one that was done.
pub open spec fn opening_after(s: OpeningView) -> OpeningStep {
    match s.step {
        OpeningStep::CreateSessions => OpeningStep::InitSearch,
        OpeningStep::InitSearch => OpeningStep::ClaimIndex,
        OpeningStep::ClaimIndex => OpeningStep::ReadIndex,
        OpeningStep::ReadIndex => if s.back_up {
            OpeningStep::BackUpIndex
        } else if s.publish {
            OpeningStep::PublishIndex
        } else {
            OpeningStep::ReleaseIndex
        },
        OpeningStep::BackUpIndex => if s.publish {
            OpeningStep::PublishIndex
        } else {
            OpeningStep::ReleaseIndex
        },
        OpeningStep::PublishIndex => OpeningStep::ReleaseIndex,
        OpeningStep::ReleaseIndex => OpeningStep::EnsureTaskJournals,
        OpeningStep::EnsureTaskJournals => OpeningStep::EnsureCopyJournals,
        OpeningStep::EnsureCopyJournals => OpeningStep::EnsureLocks,
        OpeningStep::EnsureLocks => OpeningStep::RecoverTasks,
        OpeningStep::RecoverTasks => OpeningStep::RecoverCopies,
        OpeningStep::RecoverCopies => if s.rebuild {
            OpeningStep::Rebuild
        } else {
            OpeningStep::ReconcileRevocations
        },
        OpeningStep::Rebuild => OpeningStep::ReconcileRevocations,
        OpeningStep::ReconcileRevocations => OpeningStep::Finished,
        OpeningStep::Finished => OpeningStep::Finished,
    }
}

/// The opening after the outcome of the step that was due.
pub open spec fn opening_step(s: OpeningView, outcome: Result<(), ErrorView>) -> OpeningView {
    if s.step == OpeningStep::Finished {
        s
    } else if outcome is Err && s.step != OpeningStep::BackUpIndex {
        OpeningView { step: OpeningStep::Finished, failure: Some(outcome->Err_0), ..s }
    } else {
        OpeningView { step: opening_after(s), ..s }
    }
}

/// The opening once it is decided how the index is opened.
pub open spec fn opening_with(s: OpeningView, opened: OpenedIndexView) -> OpeningView {
    OpeningView {
        back_up: opened.back_up,
        publish: opened.publish,
        rebuild: opened.needs_rebuild,
        ..s
    }
}

impl StoreOpening {
    /// A store that nothing was done for yet.
    pub fn begin() -> (r: StoreOpening)
        ensures
            r@ == opening_start(),
    {
        StoreOpening {
            step: OpeningStep::CreateSessions,
            back_up: false,
            publish: false,
            rebuild: false,
            failure: None,
        }
    }

    /// Takes how the index is opened, before the outcome of reading it is.
    pub fn index_opens(self, opened: &OpenedIndex) -> (r: StoreOpening)
        ensures
            r@ == opening_with(self@, opened@),
    {
        StoreOpening {
            back_up: opened.back_up,
            publish: opened.publish,
            rebuild: opened.needs_rebuild,
            ..self
        }
    }

    /// Takes the outcome of the step that was due.
    pub fn step(self, outcome: Result<(), StorageError>) -> (r: StoreOpening)
        ensures
            r@ == opening_step(self@, error::plain_view(outcome)),
    {
        let next = match self.step {
            OpeningStep::CreateSessions => OpeningStep::InitSearch,
            OpeningStep::InitSearch => OpeningStep::ClaimIndex,
            OpeningStep::ClaimIndex => OpeningStep::ReadIndex,
            OpeningStep::ReadIndex => if self.back_up {
                OpeningStep::BackUpIndex
            } else if self.publish {
                OpeningStep::PublishIndex
            } else {
                OpeningStep::ReleaseIndex
            },
            OpeningStep::BackUpIndex => {
                let next = if self.publish {
                    OpeningStep::PublishIndex
                } else {
                    OpeningStep::ReleaseIndex
                };
                return StoreOpening { step: next, ..self };
            },
            OpeningStep::PublishIndex => OpeningStep::ReleaseIndex,
            OpeningStep::ReleaseIndex => OpeningStep::EnsureTaskJournals,
            OpeningStep::EnsureTaskJournals => OpeningStep::EnsureCopyJournals,
            OpeningStep::EnsureCopyJournals => OpeningStep::EnsureLocks,
            OpeningStep::EnsureLocks => OpeningStep::RecoverTasks,
            OpeningStep::RecoverTasks => OpeningStep::RecoverCopies,
            OpeningStep::RecoverCopies => if self.rebuild {
                OpeningStep::Rebuild
            } else {
                OpeningStep::ReconcileRevocations
            },
            OpeningStep::Rebuild => OpeningStep::ReconcileRevocations,
            OpeningStep::ReconcileRevocations => OpeningStep::Finished,
            OpeningStep::Finished => {
                return self;
            },
        };
        match outcome {
            Ok(_) => StoreOpening { step: next, ..self },
            Err(e) => StoreOpening { step: OpeningStep::Finished, failure: Some(e), ..self },
        }
    }
}

/// What has been done for a store.
pub struct StoreDone {
    pub tasks_recovered: bool,
    pub copies_recovered: bool,
    pub rebuilt: bool,
    /// The index as it stands.
    pub index: SessionsIndexView,
}

/// Whether `e` can be what was done after a step on `d`, where `revoked` are the roots that are
/// revoked. A step that fails may have changed the index or not.
pub open spec fn done_by(
    step: OpeningStep,
    d: StoreDone,
    ok: bool,
    revoked: Seq<Seq<char>>,
    e: StoreDone,
) -> bool {
    &&& e.tasks_recovered == (d.tasks_recovered || (ok && step == OpeningStep::RecoverTasks))
    &&& e.copies_recovered == (d.copies_recovered || (ok && step == OpeningStep::RecoverCopies))
    &&& e.rebuilt == (d.rebuilt || (ok && step == OpeningStep::Rebuild))
    &&& step == OpeningStep::ReconcileRevocations && ok ==> e.index
        == root_lifetime::without_revoked(d.index, revoked)
    &&& step == OpeningStep::Finished ==> e.index == d.index
}

/// Whether an index lists nothing that belongs to a revoked root.
pub open spec fn lists_no_revoked(index: SessionsIndexView, revoked: Seq<Seq<char>>) -> bool {
    forall|id: Seq<char>| #[trigger]
        index.sessions.contains_key(id) ==> !root_lifetime::entry_revoked(
            id,
            index.sessions[id],
            revoked,
        )
}

/// What holds of a store at every step of its opening.
pub open spec fn opening_inv(s: OpeningView, d: StoreDone, revoked: Seq<Seq<char>>) -> bool {
    let opened = s.step == OpeningStep::Finished && s.failure is None;
    let reconciling = s.step == OpeningStep::ReconcileRevocations;
    &&& s.step != OpeningStep::Finished ==> s.failure is None
    &&& s.step == OpeningStep::RecoverCopies || s.step == OpeningStep::Rebuild || reconciling
        || opened ==> d.tasks_recovered
    &&& s.step == OpeningStep::Rebuild || reconciling || opened ==> d.copies_recovered
    &&& (reconciling || opened) && s.rebuild ==> d.rebuilt
    &&& opened ==> lists_no_revoked(d.index, revoked)
}

/// A store opens only after every unfinished Task commit and copy was recovered and, where its
/// index was old or damaged, after the index was rebuilt; and a rebuild never sees a transaction
/// that is not recovered. The index of an opened store, rebuilt or not, lists nothing that belongs
/// to a revoked root.
pub proof fn a_store_opens_recovered(
    s: OpeningView,
    d: StoreDone,
    outcome: Result<(), ErrorView>,
    revoked: Seq<Seq<char>>,
    e: StoreDone,
    index: SessionsIndexView,
)
    requires
        opening_inv(s, d, revoked),
        done_by(s.step, d, outcome is Ok, revoked, e),
    ensures
        opening_inv(opening_step(s, outcome), e, revoked),
        opening_inv(
            opening_start(),
            (StoreDone { tasks_recovered: false, copies_recovered: false, rebuilt: false, index }),
            revoked,
        ),
        s.step == OpeningStep::Rebuild ==> d.tasks_recovered && d.copies_recovered,
        s.step == OpeningStep::Finished && s.failure is None ==> lists_no_revoked(d.index, revoked),
{
}

/// The opening after its first `n` steps, each done, of a store whose index opens in some way.
pub open spec fn opened_so_far(n: nat, opened: OpenedIndexView) -> OpeningView
    decreases n,
{
    if n == 0 {
        opening_with(opening_start(), opened)
    } else {
        opening_step(opened_so_far((n - 1) as nat, opened), Ok(()))
    }
}

/// Undisturbed, a store is opened step by step in one order; the index is kept aside, written out
/// and rebuilt exactly where it has to be.
pub proof fn a_store_opens_in_order(opened: OpenedIndexView)
    ensures
        ({
            let at = |n: nat| opened_so_far(n, opened).step;
            let b: nat = if opened.back_up {
                1
            } else {
                0
            };
            let p: nat = if opened.publish {
                1
            } else {
                0
            };
            let r: nat = if opened.needs_rebuild {
                1
            } else {
                0
            };
            let k: nat = b + p + 4;
            &&& at(0) == OpeningStep::CreateSessions
            &&& at(1) == OpeningStep::InitSearch
            &&& at(2) == OpeningStep::ClaimIndex
            &&& at(3) == OpeningStep::ReadIndex
            &&& opened.back_up ==> at(4) == OpeningStep::BackUpIndex
            &&& opened.publish ==> at(b + 4) == OpeningStep::PublishIndex
            &&& at(k) == OpeningStep::ReleaseIndex
            &&& at(k + 1) == OpeningStep::EnsureTaskJournals
            &&& at(k + 2) == OpeningStep::EnsureCopyJournals
            &&& at(k + 3) == OpeningStep::EnsureLocks
            &&& at(k + 4) == OpeningStep::RecoverTasks
            &&& at(k + 5) == OpeningStep::RecoverCopies
            &&& opened.needs_rebuild ==> at(k + 6) == OpeningStep::Rebuild
            &&& at(k + 6 + r) == OpeningStep::ReconcileRevocations
            &&& at(k + 7 + r) == OpeningStep::Finished
            &&& opened_so_far(k + 7 + r, opened).failure is None
        }),
{
    reveal_with_fuel(opened_so_far, 16);
}

/// The first failure ends an opening, but for one to keep a damaged index aside.
pub proof fn a_failed_step_ends_an_opening(s: OpeningView, e: ErrorView)
    ensures
        s.step != OpeningStep::Finished && s.step != OpeningStep::BackUpIndex ==> opening_step(
            s,
            Err(e),
        ) == (OpeningView { step: OpeningStep::Finished, failure: Some(e), ..s }),
        s.step == OpeningStep::BackUpIndex ==> opening_step(s, Err(e)) == opening_step(s, Ok(())),
        s.step == OpeningStep::Finished ==> opening_step(s, Err(e)) == s,
{
}

/// What is said of these values is said of their own fields: none is left out or exchanged.
pub proof fn nothing_is_left_unseen(a: StoreOpening)
    ensures
        a@.failure is Some <==> a.failure is Some,
        a.failure is Some ==> a@.failure->0 == a.failure->0@,
        a@.step == a.step && a@.back_up == a.back_up,
        a@.publish == a.publish && a@.rebuild == a.rebuild,
{
}

} // verus!
