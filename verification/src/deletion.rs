//! Deleting sessions and resetting the store, step by step: what is deleted is revoked before any
//! of it is removed.
use crate::cleanup::{delete_session_recursive_locked, DeletePlanView, Removal, RemovalView};
use crate::cleanup;
use crate::error::{ErrorView, StorageError};
use crate::error;
use crate::index::{SessionIndexEntryView, SessionsIndex, SessionsIndexView};
use crate::index;
use crate::paths::{root_rel_path, validate_session_id};
use crate::paths;
use crate::rebuild::TreeEntry;
use crate::root_lifetime::{finds_root_to_delete, revoke_root_lifetime, RevocationView, RootRevocation};
use crate::root_lifetime;
use crate::session::SessionKind;
use crate::session;
use crate::task_protocol;
use crate::text;
use crate::time::Timestamp;
use vstd::prelude::*;

verus! {

// ------------------------------------------------------------------------------ one session

/// One step of deleting a session.
#[derive(Debug, Clone, Copy, PartialEq, Eq, Structural)]
pub enum DeleteStep {
    /// Write the revocation of the root, durably.
    Revoke,
    /// Remove the directory; a failure of this does not count.
    RemoveDirectory,
    /// Take the removals out of the index.
    PublishIndex,
    /// Queue the removals for the search index.
    ForgetSearch,
    Finished,
}

/// A session that is being deleted.
pub struct Deletion {
    pub step: DeleteStep,
    /// The directory that goes, relative to the home directory.
    pub directory: String,
    /// The revocation to be written, where there is a birth to revoke.
    pub revocation: Option<RootRevocation>,
    /// What leaves the index; nothing where the index does not know the session.
    pub removals: Option<Vec<Removal>>,
    /// Whether there is anything to delete.
    pub found: bool,
    pub failure: Option<StorageError>,
}

/// What a [`Deletion`] holds.
#[verifier::ext_equal]
pub struct DeletionView {
    pub step: DeleteStep,
    pub directory: Seq<char>,
    pub revocation: Option<RevocationView>,
    pub removals: Option<Seq<RemovalView>>,
    pub found: bool,
    pub failure: Option<ErrorView>,
}

impl View for Deletion {
    type V = DeletionView;

    open spec fn view(&self) -> DeletionView {
        DeletionView {
            step: self.step,
            directory: self.directory@,
            revocation: session::opt_view(self.revocation),
            removals: session::opt_views(self.removals),
            found: self.found,
            failure: task_protocol::opt_error(self.failure),
        }
    }
}

/// A deletion that is over before it began.
pub open spec fn deletion_over(id: Seq<char>, failure: Option<ErrorView>) -> DeletionView {
    DeletionView {
        step: DeleteStep::Finished,
        directory: paths::root_path(id),
        revocation: None,
        removals: None,
        found: false,
        failure,
    }
}

/// Where a deletion begins that finds something to delete.
pub open spec fn deletion_of(
    id: Seq<char>,
    plan: Option<DeletePlanView>,
    revocation: Option<RevocationView>,
) -> DeletionView {
    DeletionView {
        step: if revocation is Some {
            DeleteStep::Revoke
        } else {
            DeleteStep::RemoveDirectory
        },
        directory: match plan {
            Some(p) => p.directory,
            None => paths::root_path(id),
        },
        revocation,
        removals: match plan {
            Some(p) => Some(p.removals),
            None => None,
        },
        found: true,
        failure: None,
    }
}

/// How the deletion of a root begins, where `plan` is what the index knows of it.
pub open spec fn root_deletion(
    id: Seq<char>,
    plan: Option<DeletePlanView>,
    previous: Result<Option<Timestamp>, ErrorView>,
    birth: Result<Option<Timestamp>, ErrorView>,
    directory_there: Result<bool, ErrorView>,
) -> DeletionView {
    match (root_lifetime::revoke_plan(id, previous, birth), directory_there) {
        (Err(e), _) => deletion_over(id, Some(e)),
        (_, Err(e)) => deletion_over(id, Some(e)),
        (Ok(revoke), Ok(there)) => if plan is Some || birth->Ok_0 is Some || (previous->Ok_0
            is Some && there) {
            deletion_of(id, plan, revoke.write)
        } else {
            deletion_over(id, None)
        },
    }
}

/// How a deletion begins. `previous` is the revocation under the session's id, `birth` the birth
/// that stands at the place of a root of that id and `directory_there` whether that place is
/// taken; they count for a root alone, and for a session that the index does not know. An id that
/// can be no root's has no such place: nothing is found under it but what the index lists.
pub open spec fn deletion_start(
    index: SessionsIndexView,
    entries: Seq<SessionIndexEntryView>,
    id: Seq<char>,
    force: bool,
    previous: Result<Option<Timestamp>, ErrorView>,
    birth: Result<Option<Timestamp>, ErrorView>,
    directory_there: Result<bool, ErrorView>,
) -> DeletionView {
    match cleanup::deletion(index, entries, id, force) {
        Err(e) => deletion_over(id, Some(e)),
        Ok(plan) => if index.sessions.contains_key(id) && index.sessions[id].kind
            == SessionKind::Child {
            deletion_of(id, plan, None)
        } else if paths::id_check(id) is Err {
            if plan is Some {
                deletion_of(id, plan, None)
            } else {
                deletion_over(id, None)
            }
        } else {
            root_deletion(id, plan, previous, birth, directory_there)
        },
    }
}

/// The step after one that was done.
pub open spec fn deletion_after(s: DeletionView) -> DeleteStep {
    match s.step {
        DeleteStep::Revoke => DeleteStep::RemoveDirectory,
        DeleteStep::RemoveDirectory => if s.removals is Some {
            DeleteStep::PublishIndex
        } else {
            DeleteStep::Finished
        },
        DeleteStep::PublishIndex => DeleteStep::ForgetSearch,
        DeleteStep::ForgetSearch => DeleteStep::Finished,
        DeleteStep::Finished => DeleteStep::Finished,
    }
}

/// The deletion after the outcome of the step that was due: the first failure ends it, but for
/// one to remove the directory.
pub open spec fn deletion_step(s: DeletionView, outcome: Result<(), ErrorView>) -> DeletionView {
    if s.step == DeleteStep::Finished {
        s
    } else if outcome is Err && s.step != DeleteStep::RemoveDirectory {
        DeletionView { step: DeleteStep::Finished, failure: Some(outcome->Err_0), ..s }
    } else {
        DeletionView { step: deletion_after(s), ..s }
    }
}

impl Deletion {
    fn over(session_id: &str, failure: Option<StorageError>) -> (r: Deletion)
        ensures
            r@ == deletion_over(session_id@, task_protocol::opt_error(failure)),
    {
        Deletion {
            step: DeleteStep::Finished,
            directory: root_rel_path(session_id),
            revocation: None,
            removals: None,
            found: false,
            failure,
        }
    }

    /// Begins the deletion of a session: a root goes with all that belong to it and is revoked
    /// first, a child goes alone.
    pub fn begin(
        index: &SessionsIndex,
        session_id: &str,
        force: bool,
        previous: Result<Option<Timestamp>, StorageError>,
        birth: Result<Option<Timestamp>, StorageError>,
        directory_there: Result<bool, StorageError>,
    ) -> (r: Deletion)
        ensures
            r@ == deletion_start(
                index@,
                index::values(index.sessions),
                session_id@,
                force,
                error::plain_view(previous),
                error::plain_view(birth),
                error::plain_view(directory_there),
            ),
    {
        let is_child = match index.sessions.get(session_id) {
            Some(e) => e.kind == SessionKind::Child,
            None => false,
        };
        let plan = match delete_session_recursive_locked(index, session_id, force) {
            Err(e) => {
                return Deletion::over(session_id, Some(e));
            },
            Ok(plan) => plan,
        };
        let revocation = if is_child {
            None
        } else if validate_session_id(session_id).is_err() {
            if plan.is_none() {
                return Deletion::over(session_id, None);
            }
            None
        } else {
            let born = match &birth {
                Ok(b) => *b,
                Err(_) => None,
            };
            let revoked = match &previous {
                Ok(p) => *p,
                Err(_) => None,
            };
            let revoke = match revoke_root_lifetime(session_id, previous, birth) {
                Err(e) => {
                    return Deletion::over(session_id, Some(e));
                },
                Ok(revoke) => revoke,
            };
            let there = match directory_there {
                Err(e) => {
                    return Deletion::over(session_id, Some(e));
                },
                Ok(there) => there,
            };
            if !finds_root_to_delete(plan.is_some(), &born, &revoked, there) {
                return Deletion::over(session_id, None);
            }
            revoke.write
        };
        let step = if revocation.is_some() {
            DeleteStep::Revoke
        } else {
            DeleteStep::RemoveDirectory
        };
        match plan {
            Some(p) => Deletion {
                step,
                directory: p.directory,
                revocation,
                removals: Some(p.removals),
                found: true,
                failure: None,
            },
            None => Deletion {
                step,
                directory: root_rel_path(session_id),
                revocation,
                removals: None,
                found: true,
                failure: None,
            },
        }
    }

    /// Takes the outcome of the step that was due.
    pub fn step(self, outcome: Result<(), StorageError>) -> (r: Deletion)
        ensures
            r@ == deletion_step(self@, error::plain_view(outcome)),
    {
        let next = match self.step {
            DeleteStep::Revoke => DeleteStep::RemoveDirectory,
            DeleteStep::RemoveDirectory => {
                let next = if self.removals.is_some() {
                    DeleteStep::PublishIndex
                } else {
                    DeleteStep::Finished
                };
                return Deletion { step: next, ..self };
            },
            DeleteStep::PublishIndex => DeleteStep::ForgetSearch,
            DeleteStep::ForgetSearch => DeleteStep::Finished,
            DeleteStep::Finished => {
                return self;
            },
        };
        match outcome {
            Ok(_) => Deletion { step: next, ..self },
            Err(e) => Deletion { step: DeleteStep::Finished, failure: Some(e), ..self },
        }
    }

    /// What the request is answered once the deletion is over: whether there was anything to
    /// delete.
    pub fn answer(self) -> (r: Result<bool, StorageError>)
        ensures
            error::plain_view(r) == match self@.failure {
                Some(e) => Err(e),
                None => Ok(self@.found),
            },
    {
        match self.failure {
            Some(e) => Err(e),
            None => Ok(self.found),
        }
    }
}

// -------------------------------------------------------------------------------- a reset

/// The ids of the roots that a listing of the session tree names: directories whose name can be
/// that of a session.
pub open spec fn listed_roots(entries: Seq<TreeEntry>) -> Seq<Seq<char>>
    decreases entries.len(),
{
    if entries.len() == 0 {
        Seq::empty()
    } else {
        let head = listed_roots(entries.drop_last());
        let last = entries.last();
        if last.is_directory && last.name is Some && paths::id_check(last.name->0@) is Ok {
            head.push(last.name->0@)
        } else {
            head
        }
    }
}

fn roots_of(entries: &Vec<TreeEntry>) -> (r: Vec<String>)
    ensures
        text::texts(r@) == listed_roots(entries@),
{
    let mut out: Vec<String> = Vec::new();
    let mut i: usize = 0;
    assert(entries@.take(0) =~= Seq::<TreeEntry>::empty());
    assert(text::texts(out@) =~= listed_roots(entries@.take(0)));
    while i < entries.len()
        invariant
            i <= entries.len(),
            text::texts(out@) == listed_roots(entries@.take(i as int)),
        decreases entries.len() - i,
    {
        assert(entries@.take(i + 1).drop_last() =~= entries@.take(i as int));
        let entry = &entries[i];
        if entry.is_directory {
            match &entry.name {
                Some(name) => {
                    if validate_session_id(name).is_ok() {
                        let ghost before = out@;
                        let id = name.as_str().to_owned();
                        out.push(id);
                        assert(text::texts(out@) =~= text::texts(before).push(name@));
                    }
                },
                None => {},
            }
        }
        i = i + 1;
    }
    assert(entries@.take(entries@.len() as int) =~= entries@);
    out
}

/// One step of resetting the store.
#[derive(Debug, Clone, Copy, PartialEq, Eq, Structural)]
pub enum ResetStep {
    /// Revoke the root at hand, durably.
    Revoke,
    /// Remove the session tree; a failure of this does not count.
    RemoveTree,
    CreateTree,
    /// Publish an empty index.
    PublishIndex,
    /// Queue all that the index listed for the search index.
    ForgetSearch,
    Finished,
}

/// A store that is being reset.
pub struct StoreReset {
    pub roots: Vec<String>,
    pub next: usize,
    /// Whether the tree could be listed.
    pub listed: bool,
    pub step: ResetStep,
    pub failure: Option<StorageError>,
}

/// What a [`StoreReset`] holds.
#[verifier::ext_equal]
pub struct ResetView {
    pub roots: Seq<Seq<char>>,
    pub next: int,
    pub listed: bool,
    pub step: ResetStep,
    pub failure: Option<ErrorView>,
}

impl View for StoreReset {
    type V = ResetView;

    open spec fn view(&self) -> ResetView {
        ResetView {
            roots: text::texts(self.roots@),
            next: self.next as int,
            listed: self.listed,
            step: self.step,
            failure: task_protocol::opt_error(self.failure),
        }
    }
}

/// What a listing of the top of the session tree gave.
pub open spec fn entry_listing(r: Result<Vec<TreeEntry>, StorageError>) -> Result<
    Seq<TreeEntry>,
    ErrorView,
> {
    match r {
        Ok(v) => Ok(v@),
        Err(e) => Err(e@),
    }
}

/// A reset that has not begun: every root in the tree is revoked first, whether or not the index
/// knows it, so a tree that cannot be listed is not removed. The index is emptied all the same.
pub open spec fn reset_start(listing: Result<Seq<TreeEntry>, ErrorView>) -> ResetView {
    match listing {
        Err(_) => ResetView {
            roots: Seq::empty(),
            next: 0,
            listed: false,
            step: ResetStep::CreateTree,
            failure: None,
        },
        Ok(entries) => ResetView {
            roots: listed_roots(entries),
            next: 0,
            listed: true,
            step: if listed_roots(entries).len() > 0 {
                ResetStep::Revoke
            } else {
                ResetStep::RemoveTree
            },
            failure: None,
        },
    }
}

/// The reset after a step that was done.
pub open spec fn reset_after(s: ResetView) -> ResetView {
    match s.step {
        ResetStep::Revoke => ResetView {
            next: s.next + 1,
            step: if s.next + 1 < s.roots.len() {
                ResetStep::Revoke
            } else {
                ResetStep::RemoveTree
            },
            ..s
        },
        ResetStep::RemoveTree => ResetView { step: ResetStep::CreateTree, ..s },
        ResetStep::CreateTree => ResetView { step: ResetStep::PublishIndex, ..s },
        ResetStep::PublishIndex => ResetView { step: ResetStep::ForgetSearch, ..s },
        ResetStep::ForgetSearch => ResetView { step: ResetStep::Finished, ..s },
        ResetStep::Finished => s,
    }
}

/// The reset after the outcome of the step that was due: the first failure ends it, but for one
/// to remove the tree.
pub open spec fn reset_step(s: ResetView, outcome: Result<(), ErrorView>) -> ResetView {
    if s.step == ResetStep::Finished {
        s
    } else if outcome is Err && s.step != ResetStep::RemoveTree {
        ResetView { step: ResetStep::Finished, failure: Some(outcome->Err_0), ..s }
    } else {
        reset_after(s)
    }
}

impl StoreReset {
    /// Whether the reset has a root at hand while it revokes.
    pub open spec fn well_formed(&self) -> bool {
        self.step == ResetStep::Revoke ==> self.next < self.roots@.len()
    }

    /// A reset of a store whose session tree was listed.
    pub fn begin(listing: Result<Vec<TreeEntry>, StorageError>) -> (r: StoreReset)
        ensures
            r@ == reset_start(entry_listing(listing)),
            r.well_formed(),
    {
        match listing {
            Err(_) => {
                let roots: Vec<String> = Vec::new();
                assert(text::texts(roots@) =~= Seq::<Seq<char>>::empty());
                StoreReset {
                    roots,
                    next: 0,
                    listed: false,
                    step: ResetStep::CreateTree,
                    failure: None,
                }
            },
            Ok(entries) => {
                let roots = roots_of(&entries);
                assert(text::texts(roots@).len() == roots@.len());
                let step = if roots.len() > 0 {
                    ResetStep::Revoke
                } else {
                    ResetStep::RemoveTree
                };
                StoreReset { roots, next: 0, listed: true, step, failure: None }
            },
        }
    }

    /// Takes the outcome of the step that was due.
    pub fn step(self, outcome: Result<(), StorageError>) -> (r: StoreReset)
        requires
            self.well_formed(),
        ensures
            r@ == reset_step(self@, error::plain_view(outcome)),
            r.well_formed(),
    {
        let count: usize = self.roots.len();
        assert(text::texts(self.roots@).len() == count);
        match self.step {
            ResetStep::Finished => self,
            ResetStep::RemoveTree => StoreReset { step: ResetStep::CreateTree, ..self },
            _ => match outcome {
                Err(e) => StoreReset { step: ResetStep::Finished, failure: Some(e), ..self },
                Ok(_) => match self.step {
                    ResetStep::Revoke => {
                        let next: usize = self.next + 1;
                        if next < count {
                            StoreReset { next, ..self }
                        } else {
                            StoreReset { next, step: ResetStep::RemoveTree, ..self }
                        }
                    },
                    ResetStep::CreateTree => StoreReset { step: ResetStep::PublishIndex, ..self },
                    ResetStep::PublishIndex => StoreReset { step: ResetStep::ForgetSearch, ..self },
                    _ => StoreReset { step: ResetStep::Finished, ..self },
                },
            },
        }
    }
}

// ------------------------------------------------------------------------------------ laws

/// What a deletion has done, as a power loss would leave it.
pub struct DeleteDisk {
    /// Whether the revocation lasts.
    pub revoked: bool,
    /// Whether anything of the directory may be gone.
    pub removed: bool,
    /// Whether the index no longer lists what was deleted.
    pub unlisted: bool,
}

/// Whether `e` can be the disk after a step on `d`. A step that fails may have taken effect or
/// not.
pub open spec fn deleted_by(step: DeleteStep, d: DeleteDisk, ok: bool, e: DeleteDisk) -> bool {
    match step {
        DeleteStep::Revoke => {
            &&& e.removed == d.removed && e.unlisted == d.unlisted
            &&& ok || d.revoked ==> e.revoked
        },
        DeleteStep::RemoveDirectory => {
            &&& e.revoked == d.revoked && e.unlisted == d.unlisted
            &&& d.removed ==> e.removed
        },
        DeleteStep::PublishIndex => {
            &&& e.revoked == d.revoked && e.removed == d.removed
            &&& ok || d.unlisted ==> e.unlisted
        },
        _ => e == d,
    }
}

/// What holds of a deletion and its disk at every step.
pub open spec fn deletion_inv(s: DeletionView, d: DeleteDisk) -> bool {
    &&& s.step == DeleteStep::Revoke ==> s.revocation is Some && !d.removed && !d.unlisted
    &&& s.step == DeleteStep::PublishIndex || s.step == DeleteStep::ForgetSearch ==> s.removals
        is Some
    &&& s.step != DeleteStep::Finished ==> s.failure is None && s.found
    &&& !s.found ==> !d.removed && !d.unlisted
    &&& s.revocation is Some && (d.removed || d.unlisted || s.step == DeleteStep::RemoveDirectory
        || s.step == DeleteStep::PublishIndex || s.step == DeleteStep::ForgetSearch || (s.step
        == DeleteStep::Finished && s.failure is None && s.found)) ==> d.revoked
    &&& s.removals is Some && (s.step == DeleteStep::ForgetSearch || (s.step == DeleteStep::Finished
        && s.failure is None && s.found)) ==> d.unlisted
}

/// A deletion begins on a disk on which nothing of it was done.
pub proof fn deleting_begins(
    index: SessionsIndexView,
    entries: Seq<SessionIndexEntryView>,
    id: Seq<char>,
    force: bool,
    previous: Result<Option<Timestamp>, ErrorView>,
    birth: Result<Option<Timestamp>, ErrorView>,
    directory_there: Result<bool, ErrorView>,
    d: DeleteDisk,
)
    requires
        !d.removed && !d.unlisted,
    ensures
        deletion_inv(
            deletion_start(index, entries, id, force, previous, birth, directory_there),
            d,
        ),
{
}

/// The revocation is the point at which a root is deleted: whatever happens, nothing of a root
/// with a birth is removed and no row of it leaves the index before the revocation lasts; and a
/// deletion that is answered with success has revoked the root and taken its rows out.
pub proof fn nothing_is_removed_before_it_is_revoked(
    s: DeletionView,
    d: DeleteDisk,
    outcome: Result<(), ErrorView>,
    e: DeleteDisk,
)
    requires
        deletion_inv(s, d),
        deleted_by(s.step, d, outcome is Ok, e),
    ensures
        deletion_inv(deletion_step(s, outcome), e),
        s.revocation is Some && (e.removed || e.unlisted) ==> e.revoked,
        deletion_step(s, outcome).revocation == s.revocation,
        s.step == DeleteStep::Finished && s.failure is None && s.found ==> (s.revocation is Some
            ==> d.revoked) && (s.removals is Some ==> d.unlisted),
{
}

/// A deletion of a root whose birth stands revokes that birth: afterwards it is not live under
/// the revocation that was written, so nothing that is left of it can be read or saved back.
pub proof fn a_deletion_revokes_the_birth(
    index: SessionsIndexView,
    entries: Seq<SessionIndexEntryView>,
    id: Seq<char>,
    force: bool,
    previous: Option<Timestamp>,
    birth: Timestamp,
    directory_there: bool,
)
    requires
        paths::id_check(id) is Ok,
        cleanup::deletion(index, entries, id, force) is Ok,
        index.sessions.contains_key(id) ==> index.sessions[id].kind == SessionKind::Root,
    ensures
        ({
            let s = deletion_start(
                index,
                entries,
                id,
                force,
                Ok(previous),
                Ok(Some(birth)),
                Ok(directory_there),
            );
            &&& s.step == DeleteStep::Revoke
            &&& s.found
            &&& s.revocation is Some && s.revocation->0.session_id == id
            &&& !root_lifetime::birth_live(Some(s.revocation->0.revoked_through), birth)
            &&& s.removals is Some == index.sessions.contains_key(id)
        }),
{
    root_lifetime::a_revocation_never_goes_back(id, previous, birth);
}

/// What a reset has done, as a power loss would leave it.
pub struct ResetDisk {
    /// How many roots of the tree are revoked for good, from the first on.
    pub revoked: int,
    /// Whether anything of the tree may be gone.
    pub removed: bool,
    /// Whether the index is empty.
    pub unlisted: bool,
}

/// Whether `e` can be the disk after a step on `d`.
pub open spec fn reset_by(step: ResetStep, next: int, d: ResetDisk, ok: bool, e: ResetDisk) -> bool {
    match step {
        ResetStep::Revoke => {
            &&& e.removed == d.removed && e.unlisted == d.unlisted
            &&& e.revoked >= d.revoked
            &&& ok && d.revoked >= next ==> e.revoked >= next + 1
        },
        ResetStep::RemoveTree => {
            &&& e.revoked == d.revoked && e.unlisted == d.unlisted
            &&& d.removed ==> e.removed
        },
        ResetStep::PublishIndex => {
            &&& e.revoked == d.revoked && e.removed == d.removed
            &&& ok || d.unlisted ==> e.unlisted
        },
        _ => e == d,
    }
}

/// What holds of a reset and its disk at every step.
pub open spec fn reset_inv(s: ResetView, d: ResetDisk) -> bool {
    &&& s.step != ResetStep::Finished ==> s.failure is None
    &&& s.step == ResetStep::Revoke ==> 0 <= s.next < s.roots.len() && d.revoked >= s.next
        && !d.removed && !d.unlisted
    &&& d.removed || s.step == ResetStep::Revoke || s.step == ResetStep::RemoveTree ==> s.listed
    &&& d.removed || d.unlisted || s.step == ResetStep::RemoveTree || s.step
        == ResetStep::CreateTree || s.step == ResetStep::PublishIndex || s.step
        == ResetStep::ForgetSearch || (s.step == ResetStep::Finished && s.failure is None)
        ==> d.revoked >= s.roots.len()
    &&& s.step == ResetStep::ForgetSearch || (s.step == ResetStep::Finished && s.failure is None)
        ==> d.unlisted
}

/// A reset begins on a disk on which nothing of it was done.
pub proof fn resetting_begins(listing: Result<Seq<TreeEntry>, ErrorView>, d: ResetDisk)
    requires
        d.revoked == 0 && !d.removed && !d.unlisted,
    ensures
        reset_inv(reset_start(listing), d),
{
}

/// A reset removes nothing before every root in the tree, listed in the index or not, is revoked
/// for good, and nothing at all of a tree whose roots it does not know; one that is answered with
/// success has revoked all that it knows of and emptied the index.
pub proof fn a_reset_revokes_every_root_first(
    s: ResetView,
    d: ResetDisk,
    outcome: Result<(), ErrorView>,
    e: ResetDisk,
)
    requires
        reset_inv(s, d),
        reset_by(s.step, s.next, d, outcome is Ok, e),
    ensures
        reset_inv(reset_step(s, outcome), e),
        e.removed || e.unlisted ==> e.revoked >= s.roots.len(),
        e.removed ==> s.listed,
        reset_step(s, outcome).listed == s.listed,
        s.step == ResetStep::Finished && s.failure is None ==> d.unlisted && d.revoked
            >= s.roots.len(),
{
}

/// A deletion that finds something takes the directory that the index knows, or the place of the root
/// of that id, and what the plan takes out of the index; it revokes first where there is a birth to
/// revoke. Nothing is found where neither the index nor the place nor an earlier revocation of what
/// stands there knows the id.
pub proof fn what_a_deletion_finds(
    id: Seq<char>,
    plan: Option<DeletePlanView>,
    previous: Option<Timestamp>,
    birth: Option<Timestamp>,
    there: bool,
    e: ErrorView,
)
    ensures
        ({
            let d = root_deletion(id, plan, Ok(previous), Ok(birth), Ok(there));
            &&& d.failure is None
            &&& d.found <==> plan is Some || birth is Some || (previous is Some && there)
            &&& !d.found ==> d.step == DeleteStep::Finished
            &&& d.found && birth is Some ==> d.step == DeleteStep::Revoke && d.revocation is Some
                && d.revocation->0.session_id == id
            &&& d.found && birth is None ==> d.step == DeleteStep::RemoveDirectory && d.revocation
                is None
            &&& d.found && plan is Some ==> d.directory == plan->0.directory && d.removals == Some(
                plan->0.removals,
            )
            &&& plan is None ==> d.directory == "sessions/"@ + id && d.removals is None
        }),
        ({
            let d = root_deletion(id, plan, Err(e), Ok(birth), Ok(there));
            d.step == DeleteStep::Finished && d.failure == Some(e) && !d.found
        }),
        ({
            let d = root_deletion(id, plan, Ok(previous), Err(e), Ok(there));
            d.step == DeleteStep::Finished && d.failure == Some(e) && !d.found
        }),
        ({
            let d = root_deletion(id, plan, Ok(previous), Ok(birth), Err(e));
            d.step == DeleteStep::Finished && d.failure == Some(e) && !d.found
        }),
{
}

/// A child goes alone and revokes nothing; an id that is none is found in the index only; any other
/// goes as a root. A deletion that is refused is over with the refusal.
pub proof fn how_a_deletion_begins(
    index: SessionsIndexView,
    entries: Seq<SessionIndexEntryView>,
    id: Seq<char>,
    force: bool,
    previous: Result<Option<Timestamp>, ErrorView>,
    birth: Result<Option<Timestamp>, ErrorView>,
    there: Result<bool, ErrorView>,
)
    ensures
        ({
            let d = deletion_start(index, entries, id, force, previous, birth, there);
            let plan = cleanup::deletion(index, entries, id, force);
            let child = index.sessions.contains_key(id) && index.sessions[id].kind
                == SessionKind::Child;
            &&& plan is Err ==> d.step == DeleteStep::Finished && d.failure == Some(plan->Err_0)
                && !d.found
            &&& plan is Ok && child ==> d.step == DeleteStep::RemoveDirectory && d.revocation is None
                && d.found && d.failure is None
            &&& plan is Ok && child && plan->Ok_0 is Some ==> d.directory == plan->Ok_0->0.directory
                && d.removals == Some(plan->Ok_0->0.removals)
            &&& plan is Ok && !child && paths::id_check(id) is Err ==> d.revocation is None
                && d.failure is None && (d.found <==> plan->Ok_0 is Some) && (d.found ==> d.step
                == DeleteStep::RemoveDirectory && d.directory == plan->Ok_0->0.directory) && (!d.found
                ==> d.step == DeleteStep::Finished)
            &&& plan is Ok && !child && paths::id_check(id) is Ok ==> d == root_deletion(
                id,
                plan->Ok_0,
                previous,
                birth,
                there,
            )
        }),
{
}

/// A deletion revokes, removes the directory, publishes the index and forgets the search entries, in
/// this order; the latter two only where the index knew the session. The first failure ends it, but
/// for one to remove the directory.
pub proof fn a_deletion_takes_every_step(s: DeletionView, e: ErrorView)
    ensures
        s.step == DeleteStep::Revoke ==> deletion_step(s, Ok(())) == (DeletionView {
            step: DeleteStep::RemoveDirectory,
            ..s
        }),
        s.step == DeleteStep::RemoveDirectory && s.removals is Some ==> deletion_step(s, Ok(()))
            == (DeletionView { step: DeleteStep::PublishIndex, ..s }) && deletion_step(s, Err(e))
            == deletion_step(s, Ok(())),
        s.step == DeleteStep::RemoveDirectory && s.removals is None ==> deletion_step(s, Ok(())) == (
        DeletionView { step: DeleteStep::Finished, ..s }) && deletion_step(s, Err(e))
            == deletion_step(s, Ok(())),
        s.step == DeleteStep::PublishIndex ==> deletion_step(s, Ok(())) == (DeletionView {
            step: DeleteStep::ForgetSearch,
            ..s
        }),
        s.step == DeleteStep::ForgetSearch ==> deletion_step(s, Ok(())) == (DeletionView {
            step: DeleteStep::Finished,
            ..s
        }),
        s.step == DeleteStep::Revoke || s.step == DeleteStep::PublishIndex || s.step
            == DeleteStep::ForgetSearch ==> deletion_step(s, Err(e)) == (DeletionView {
            step: DeleteStep::Finished,
            failure: Some(e),
            ..s
        }),
        s.step == DeleteStep::Finished ==> deletion_step(s, Ok(())) == s && deletion_step(s, Err(e))
            == s,
{
}

/// The roots that a reset revokes are exactly the directories of the listing whose name can be an id.
pub proof fn every_listed_root_is_revoked(entries: Seq<TreeEntry>, id: Seq<char>)
    ensures
        listed_roots(entries).contains(id) <==> exists|i: int|
            0 <= i < entries.len() && (#[trigger] entries[i]).is_directory && entries[i].name is Some
                && entries[i].name->0@ == id && paths::id_check(id) is Ok,
    decreases entries.len(),
{
    if entries.len() > 0 {
        let head = entries.drop_last();
        let n = entries.len() - 1;
        every_listed_root_is_revoked(head, id);
        assert forall|i: int| 0 <= i < n implies head[i] == entries[i] by {}
        let roots = listed_roots(entries);
        let before = listed_roots(head);
        if roots.contains(id) {
            let k = choose|k: int| 0 <= k < roots.len() && roots[k] == id;
            if k < before.len() {
                assert(before[k] == id);
                let i = choose|i: int|
                    0 <= i < head.len() && (#[trigger] head[i]).is_directory && head[i].name is Some
                        && head[i].name->0@ == id && paths::id_check(id) is Ok;
                assert(entries[i] == head[i]);
            } else {
                assert(entries[n].is_directory);
            }
        }
        if exists|i: int|
            0 <= i < entries.len() && (#[trigger] entries[i]).is_directory && entries[i].name is Some
                && entries[i].name->0@ == id && paths::id_check(id) is Ok {
            let i = choose|i: int|
                0 <= i < entries.len() && (#[trigger] entries[i]).is_directory && entries[i].name
                    is Some && entries[i].name->0@ == id && paths::id_check(id) is Ok;
            if i < n {
                assert(head[i] == entries[i]);
                let k = choose|k: int| 0 <= k < before.len() && before[k] == id;
                assert(roots[k] == id);
            } else {
                assert(roots.last() == id);
            }
        }
    }
}

/// A reset revokes each listed root in turn, then removes the tree, creates it again, publishes an
/// empty index and forgets the search entries; a tree that could not be listed is left, and nothing
/// in it is revoked. The first failure ends it, but for one to remove the tree.
pub proof fn a_reset_takes_every_step(s: ResetView, entries: Seq<TreeEntry>, e: ErrorView)
    ensures
        reset_start(Err(e)).step == ResetStep::CreateTree && !reset_start(Err(e)).listed
            && reset_start(Err(e)).failure is None && reset_start(Err(e)).roots.len() == 0,
        reset_start(Ok(entries)).listed && reset_start(Ok(entries)).next == 0 && reset_start(
            Ok(entries),
        ).failure is None && reset_start(Ok(entries)).roots == listed_roots(entries),
        listed_roots(entries).len() > 0 ==> reset_start(Ok(entries)).step == ResetStep::Revoke,
        listed_roots(entries).len() == 0 ==> reset_start(Ok(entries)).step == ResetStep::RemoveTree,
        s.step == ResetStep::Revoke && s.next + 1 < s.roots.len() ==> reset_step(s, Ok(())) == (
        ResetView { next: s.next + 1, ..s }),
        s.step == ResetStep::Revoke && s.next + 1 == s.roots.len() ==> reset_step(s, Ok(())) == (
        ResetView { next: s.next + 1, step: ResetStep::RemoveTree, ..s }),
        s.step == ResetStep::RemoveTree ==> reset_step(s, Ok(())) == (ResetView {
            step: ResetStep::CreateTree,
            ..s
        }) && reset_step(s, Err(e)) == reset_step(s, Ok(())),
        s.step == ResetStep::CreateTree ==> reset_step(s, Ok(())) == (ResetView {
            step: ResetStep::PublishIndex,
            ..s
        }),
        s.step == ResetStep::PublishIndex ==> reset_step(s, Ok(())) == (ResetView {
            step: ResetStep::ForgetSearch,
            ..s
        }),
        s.step == ResetStep::ForgetSearch ==> reset_step(s, Ok(())) == (ResetView {
            step: ResetStep::Finished,
            ..s
        }),
        s.step != ResetStep::RemoveTree && s.step != ResetStep::Finished ==> reset_step(s, Err(e)) == (
        ResetView { step: ResetStep::Finished, failure: Some(e), ..s }),
{
}

/// What is said of these values is said of their own fields: none is left out or exchanged.
pub proof fn nothing_is_left_unseen(a: Deletion, b: StoreReset)
    ensures
        a@.revocation is Some <==> a.revocation is Some,
        a.revocation is Some ==> a@.revocation->0 == a.revocation->0@,
        a@.removals is Some <==> a.removals is Some,
        a.removals is Some ==> a@.removals->0.len() == a.removals->0@.len() && forall|i: int|
            0 <= i < a.removals->0@.len() ==> #[trigger] a@.removals->0[i] == a.removals->0@[i]@,
        a@.failure is Some <==> a.failure is Some,
        a.failure is Some ==> a@.failure->0 == a.failure->0@,
        a@.step == a.step && a@.directory == a.directory@,
        a@.found == a.found,
        b@.roots.len() == b.roots@.len(),
        forall|i: int|
            0 <= i < b.roots@.len() ==> #[trigger] b@.roots[i] == b.roots@[i]@,
        b@.failure is Some <==> b.failure is Some,
        b.failure is Some ==> b@.failure->0 == b.failure->0@,
        b@.next == b.next && b@.listed == b.listed,
        b@.step == b.step,
{
}

} // verus!
