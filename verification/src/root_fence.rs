//! The fence in front of every writer of a root: the lifetime rule first, then the context rule.
use crate::error::{ErrorView, StorageError};
use crate::error;
use crate::root_context::{validate_root_context_for_write, RootContext};
use crate::root_context;
use crate::root_lifetime::{root_birth_is_live, root_directory_is_revoked, validate_root_lifetime_for_write};
use crate::root_lifetime;
use crate::session::{Session, SessionView};
use crate::task_journal;
use crate::time::Timestamp;
use vstd::prelude::*;

verus! {

/// What was found about a session that is about to be written: the revocation under its id,
/// whether its lifetime is not revoked, and its directory.
pub struct RootFence {
    pub revocation: Result<Option<Timestamp>, StorageError>,
    pub live: Result<bool, StorageError>,
    pub context: RootContext,
}

/// What a write is answered by the fence.
pub open spec fn root_fence_check(incoming: SessionView, full: bool, f: RootFence) -> Result<
    (),
    ErrorView,
> {
    match root_lifetime::lifetime_check(
        incoming,
        error::plain_view(f.revocation),
        f.context.main_file,
        f.context.runtime_file,
        error::plain_view(f.live),
    ) {
        Err(e) => Err(e),
        Ok(_) => root_context::root_context_check(incoming, full, f.context),
    }
}

fn copy_cutoff(r: &Result<Option<Timestamp>, StorageError>) -> (c: Result<
    Option<Timestamp>,
    StorageError,
>)
    ensures
        error::plain_view(c) == error::plain_view(*r),
{
    match r {
        Ok(t) => Ok(*t),
        Err(e) => Err(e.clone()),
    }
}

fn copy_live(r: &Result<bool, StorageError>) -> (c: Result<bool, StorageError>)
    ensures
        error::plain_view(c) == error::plain_view(*r),
{
    match r {
        Ok(b) => Ok(*b),
        Err(e) => Err(e.clone()),
    }
}

/// Checks a session before it is written, in full or its control plane alone: it must be of a
/// lifetime that is not revoked, and of the creation and context that is durable.
pub fn validate_root_for_write(incoming: &Session, full: bool, fence: &RootFence) -> (r: Result<
    (),
    StorageError,
>)
    ensures
        error::plain_view(r) == root_fence_check(incoming@, full, *fence),
{
    match validate_root_lifetime_for_write(
        incoming,
        copy_cutoff(&fence.revocation),
        &fence.context.main_file,
        &fence.context.runtime_file,
        copy_live(&fence.live),
    ) {
        Err(e) => {
            return Err(e);
        },
        Ok(_) => {},
    }
    validate_root_context_for_write(incoming, full, &fence.context)
}

/// What a reader sees of a session: nothing where its lifetime is revoked.
pub open spec fn visible(
    loaded: Result<Option<SessionView>, ErrorView>,
    live: Result<bool, ErrorView>,
) -> Result<Option<SessionView>, ErrorView> {
    match loaded {
        Err(e) => Err(e),
        Ok(None) => Ok(None),
        Ok(Some(s)) => match live {
            Err(e) => Err(e),
            Ok(true) => Ok(Some(s)),
            Ok(false) => Ok(None),
        },
    }
}

/// Hides a session whose lifetime is revoked from its reader.
pub fn suppress_revoked(
    loaded: Result<Option<Session>, StorageError>,
    live: Result<bool, StorageError>,
) -> (r: Result<Option<Session>, StorageError>)
    ensures
        task_journal::load_view(r) == visible(task_journal::load_view(loaded), error::plain_view(live)),
{
    match loaded {
        Err(e) => Err(e),
        Ok(None) => Ok(None),
        Ok(Some(s)) => match live {
            Err(e) => Err(e),
            Ok(b) => if b {
                Ok(Some(s))
            } else {
                Ok(None)
            },
        },
    }
}

/// A write that passes the fence over a durable root is of a birth past every revoked one, of the
/// durable creation, at a metadata revision no older than the durable one, and with a Project
/// that changed, if at all, with the next revision.
pub proof fn the_fence_keeps_lifetime_and_context(
    incoming: SessionView,
    full: bool,
    f: RootFence,
    current: SessionView,
)
    requires
        root_fence_check(incoming, full, f) is Ok,
        f.context.directory is Directory,
        f.context.runtime_file is File,
        f.context.runtime is Parsed,
        f.context.runtime->Parsed_0@ == current,
    ensures
        f.revocation is Ok,
        root_lifetime::birth_live(f.revocation->Ok_0, incoming.created_at),
        crate::root_context::same_creation(incoming, current),
        incoming.metadata_version >= current.metadata_version,
        incoming.project() != current.project() ==> incoming.metadata_version
            == current.metadata_version + 1,
{
    crate::root_context::accepted_writes_keep_the_context(incoming, full, f.context, current);
}

/// A session that is refused by the fence is refused as a conflict with durable authority, unless
/// its id is no id at all.
pub proof fn the_fence_refuses_with_a_conflict(incoming: SessionView, full: bool, f: RootFence)
    requires
        root_fence_check(incoming, full, f) is Err,
        crate::paths::id_check(incoming.id) is Ok,
    ensures
        root_fence_check(incoming, full, f)->Err_0.authority_conflict,
{
}

/// What a reader of a root's authority sees: an error where the evidence of its lifetime cannot
/// be read, also where nothing stands at its place, and nothing where what stands there is of a
/// revoked birth, whatever is left of it.
pub open spec fn visible_authority(
    loaded: Result<Option<SessionView>, ErrorView>,
    revocation: Result<Option<Timestamp>, ErrorView>,
    birth: Result<Option<Timestamp>, ErrorView>,
) -> Result<Option<SessionView>, ErrorView> {
    match root_lifetime::directory_revoked(revocation, birth) {
        Err(e) => Err(e),
        Ok(true) => Ok(None),
        Ok(false) => match loaded {
            Err(e) => Err(e),
            Ok(None) => Ok(None),
            Ok(Some(s)) => if root_lifetime::birth_live(revocation->Ok_0, s.created_at) {
                Ok(Some(s))
            } else {
                Ok(None)
            },
        },
    }
}

/// Hides the authority of a deleted root from its reader, and fails where it cannot be told
/// whether the root is deleted.
pub fn suppress_revoked_authority(
    loaded: Result<Option<Session>, StorageError>,
    revocation: Result<Option<Timestamp>, StorageError>,
    birth: Result<Option<Timestamp>, StorageError>,
) -> (r: Result<Option<Session>, StorageError>)
    ensures
        task_journal::load_view(r) == visible_authority(
            task_journal::load_view(loaded),
            error::plain_view(revocation),
            error::plain_view(birth),
        ),
{
    let cutoff = match &revocation {
        Ok(c) => *c,
        Err(_) => None,
    };
    match root_directory_is_revoked(revocation, birth) {
        Err(e) => {
            return Err(e);
        },
        Ok(revoked) => {
            if revoked {
                return Ok(None);
            }
        },
    }
    match loaded {
        Err(e) => Err(e),
        Ok(None) => Ok(None),
        Ok(Some(s)) => match root_birth_is_live(Ok(cutoff), s.created_at) {
            Err(e) => Err(e),
            Ok(live) => if live {
                Ok(Some(s))
            } else {
                Ok(None)
            },
        },
    }
}

/// Damaged evidence grants nothing: where the revocation of a root cannot be read its authority is
/// not answered at all, and authority that is answered is of a birth past every revoked one.
pub proof fn damaged_evidence_fails_closed(
    loaded: Result<Option<SessionView>, ErrorView>,
    revocation: Result<Option<Timestamp>, ErrorView>,
    birth: Result<Option<Timestamp>, ErrorView>,
)
    ensures
        revocation is Err ==> visible_authority(loaded, revocation, birth) is Err,
        revocation is Ok && revocation->Ok_0 is Some && birth is Err ==> visible_authority(
            loaded,
            revocation,
            birth,
        ) is Err,
        ({
            let seen = visible_authority(loaded, revocation, birth);
            seen is Ok && seen->Ok_0 is Some ==> loaded == seen && root_lifetime::birth_live(
                revocation->Ok_0,
                seen->Ok_0->0.created_at,
            )
        }),
        revocation == Ok::<Option<Timestamp>, ErrorView>(None) ==> visible_authority(
            loaded,
            revocation,
            birth,
        ) == loaded,
{
}

/// What is left of a deleted root grants no authority and keeps no one from creating the root
/// again: it reads as nothing, also where one of its files is missing.
pub proof fn remains_of_a_deleted_root_read_as_nothing(
    loaded: Result<Option<SessionView>, ErrorView>,
    cutoff: Timestamp,
    birth: Option<Timestamp>,
)
    requires
        birth is Some ==> !root_lifetime::birth_live(Some(cutoff), birth->0),
    ensures
        visible_authority(loaded, Ok(Some(cutoff)), Ok(birth)) == Ok::<
            Option<SessionView>,
            ErrorView,
        >(None),
{
}

/// The fence lets a writer through exactly where both rules do, and whatever is found of the one
/// cannot make up for the other.
pub proof fn the_fence_asks_both_rules(incoming: SessionView, full: bool, f: RootFence)
    ensures
        root_fence_check(incoming, full, f) is Ok <==> root_lifetime::lifetime_check(
            incoming,
            error::plain_view(f.revocation),
            f.context.main_file,
            f.context.runtime_file,
            error::plain_view(f.live),
        ) is Ok && root_context::root_context_check(incoming, full, f.context) is Ok,
{
}

/// A session that is there and alive is seen as it was loaded; one of a revoked lifetime is not seen,
/// and one whose lifetime cannot be told is a failure. What was not found is not asked about.
pub proof fn the_living_are_seen(s: SessionView, live: Result<bool, ErrorView>)
    ensures
        visible(Ok(None), live) == Ok::<Option<SessionView>, ErrorView>(None),
        live == Ok::<bool, ErrorView>(true) ==> visible(Ok(Some(s)), live) == Ok::<
            Option<SessionView>,
            ErrorView,
        >(Some(s)),
        live == Ok::<bool, ErrorView>(false) ==> visible(Ok(Some(s)), live) == Ok::<
            Option<SessionView>,
            ErrorView,
        >(None),
        live is Err ==> visible(Ok(Some(s)), live) is Err,
{
}

/// Root authority is seen as it was loaded exactly where nothing was deleted under its id, or both
/// the birth that stands there and that of the session are past it.
pub proof fn live_authority_is_seen(
    s: SessionView,
    cutoff: Option<Timestamp>,
    birth: Option<Timestamp>,
)
    ensures
        visible_authority(Ok(None), Ok(cutoff), Ok(birth)) == Ok::<Option<SessionView>, ErrorView>(
            None,
        ),
        cutoff is None ==> visible_authority(Ok(Some(s)), Ok(cutoff), Ok(birth)) == Ok::<
            Option<SessionView>,
            ErrorView,
        >(Some(s)),
        cutoff is Some ==> visible_authority(Ok(Some(s)), Ok(cutoff), Ok(birth)) == Ok::<
            Option<SessionView>,
            ErrorView,
        >(
            if birth is Some && crate::time::before(cutoff->0, birth->0) && crate::time::before(
                cutoff->0,
                s.created_at,
            ) {
                Some(s)
            } else {
                None
            },
        ),
{
}

} // verus!
