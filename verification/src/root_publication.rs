//! Publishing a root that has never been there: the bootstrap of the Supervisor, and the steps by
//! which a complete root directory appears at its place.
use crate::error::{ErrorKind, ErrorView, StorageError};
use crate::error;
use crate::outside::{new_uuid_text, parse_uuid};
use crate::paths;
use crate::probe::{Probe, SessionFile};
use crate::session::{Session, SessionAuthorityIdentity, SessionKind, SessionView};
use crate::session;
use crate::supervisor::{invalid, RootFiles};
use crate::supervisor;
use crate::task_journal;
use crate::task_protocol;
use crate::text::{is_blank, same_text, trim};
use crate::text;
use crate::time::Timestamp;
use vstd::prelude::*;

verus! {

// ------------------------------------------------------------------------ bootstrap

/// What stands in place of a Supervisor whose authority could not be loaded: whether its runtime
/// file is missing, what stands at its session file, and what that holds.
pub struct LegacyOwner {
    pub runtime_missing: bool,
    pub main_file: Probe,
    pub main: SessionFile,
}

/// Whether an ordinary session without a runtime file occupies the Supervisor's id.
pub open spec fn legacy_ordinary(owner: LegacyOwner, default_id: Seq<char>) -> bool {
    owner.runtime_missing && owner.main_file is File && match owner.main {
        SessionFile::Parsed(m) => {
            let s = m@;
            &&& s.id == default_id
            &&& s.kind == SessionKind::Root
            &&& s.parent_session_id is None
            &&& s.spawn_depth == 0
            &&& s.root_session_id.len() == 0 || s.root_session_id == s.id
            &&& s.authority_identity == SessionAuthorityIdentity::Ordinary
        },
        _ => false,
    }
}

fn is_legacy_ordinary(owner: &LegacyOwner, default_id: &str) -> (r: bool)
    ensures
        r == legacy_ordinary(*owner, default_id@),
{
    let file = match owner.main_file {
        Probe::File => true,
        _ => false,
    };
    match &owner.main {
        SessionFile::Parsed(s) => owner.runtime_missing && file && same_text(&s.id, default_id)
            && s.kind == SessionKind::Root && s.parent_session_id.is_none() && s.spawn_depth == 0
            && (s.root_session_id.as_str().is_empty() || s.root_session_id == s.id)
            && s.authority_identity == SessionAuthorityIdentity::Ordinary,
        _ => false,
    }
}

/// What a bootstrap finds to do.
pub enum BootstrapStart {
    /// The Supervisor is there; only its index entry is repaired.
    Existing { incarnation_id: u128 },
    Create,
}

/// What a bootstrap finds to do, where `existing` is the root authority under the Supervisor's
/// id.
pub open spec fn bootstrap_start(
    existing: Result<Option<SessionView>, ErrorView>,
    owner: LegacyOwner,
    model: Seq<char>,
    default_id: Seq<char>,
) -> Result<BootstrapStart, ErrorView> {
    match existing {
        Err(e) => if legacy_ordinary(owner, default_id) {
            Err(
                error::plain_error(
                    ErrorKind::AlreadyExists,
                    "default Supervisor ID is occupied by a legacy Ordinary Session"@,
                ),
            )
        } else {
            Err(e)
        },
        Ok(Some(s)) => match s.authority_identity {
            SessionAuthorityIdentity::Supervisor { incarnation_id } => Ok(
                BootstrapStart::Existing { incarnation_id },
            ),
            SessionAuthorityIdentity::Ordinary => Err(
                error::plain_error(
                    ErrorKind::AlreadyExists,
                    "default Supervisor ID is occupied by an Ordinary Session"@,
                ),
            ),
        },
        Ok(None) => if text::trimmed(model).len() == 0 {
            Err(
                error::plain_error(
                    ErrorKind::InvalidInput,
                    "a model is required to bootstrap the default Supervisor"@,
                ),
            )
        } else {
            Ok(BootstrapStart::Create)
        },
    }
}

/// Decides what a bootstrap of the Supervisor finds to do.
pub fn begin_bootstrap(
    existing: Result<Option<Session>, StorageError>,
    owner: &LegacyOwner,
    initial_model: &str,
    default_id: &str,
) -> (r: Result<BootstrapStart, StorageError>)
    ensures
        error::plain_view(r) == bootstrap_start(
            task_journal::load_view(existing),
            *owner,
            initial_model@,
            default_id@,
        ),
{
    match existing {
        Err(e) => {
            if is_legacy_ordinary(owner, default_id) {
                Err(
                    StorageError::new(
                        ErrorKind::AlreadyExists,
                        "default Supervisor ID is occupied by a legacy Ordinary Session".to_owned(),
                    ),
                )
            } else {
                Err(e)
            }
        },
        Ok(Some(s)) => match s.authority_identity {
            SessionAuthorityIdentity::Supervisor { incarnation_id } => Ok(
                BootstrapStart::Existing { incarnation_id },
            ),
            SessionAuthorityIdentity::Ordinary => Err(
                StorageError::new(
                    ErrorKind::AlreadyExists,
                    "default Supervisor ID is occupied by an Ordinary Session".to_owned(),
                ),
            ),
        },
        Ok(None) => {
            if is_blank(initial_model) {
                Err(
                    StorageError::new(
                        ErrorKind::InvalidInput,
                        "a model is required to bootstrap the default Supervisor".to_owned(),
                    ),
                )
            } else {
                Ok(BootstrapStart::Create)
            }
        },
    }
}

/// A Supervisor's session in which nothing has happened yet.
pub open spec fn blank_supervisor(
    default_id: Seq<char>,
    model: Seq<char>,
    incarnation_id: u128,
    now: Timestamp,
) -> SessionView {
    SessionView {
        authority_identity: SessionAuthorityIdentity::Supervisor { incarnation_id },
        ..session::blank_root(default_id, text::trimmed(model), "Supervisor"@, now)
    }
}

/// A Supervisor's session in which nothing has happened yet.
pub fn supervisor_session(
    default_id: &str,
    initial_model: &str,
    incarnation_id: u128,
    now: Timestamp,
) -> (r: Session)
    ensures
        r@ == blank_supervisor(default_id@, initial_model@, incarnation_id, now),
{
    let mut s = Session::new_root(default_id, trim(initial_model), "Supervisor", now);
    s.authority_identity = SessionAuthorityIdentity::Supervisor { incarnation_id };
    assert(s@ =~= blank_supervisor(default_id@, initial_model@, incarnation_id, now));
    s
}

/// The session of a new Supervisor, under a fresh incarnation.
pub fn bootstrap_default_supervisor(default_id: &str, initial_model: &str, now: Timestamp) -> (r:
    Session)
    ensures
        exists|incarnation_id: u128|
            incarnation_id != 0 && r@ == #[trigger] blank_supervisor(
                default_id@,
                initial_model@,
                incarnation_id,
                now,
            ),
{
    let text = new_uuid_text();
    match parse_uuid(&text) {
        Ok(n) => supervisor_session(default_id, initial_model, n, now),
        Err(_) => vstd::pervasive::unreached(),
    }
}

/// The Supervisor that is there, which has to be.
pub open spec fn published_supervisor(full: Result<Option<SessionView>, ErrorView>) -> Result<
    SessionView,
    ErrorView,
> {
    match full {
        Err(e) => Err(e),
        Ok(None) => Err(supervisor::invalid_authority("published Supervisor disappeared"@)),
        Ok(Some(s)) => Ok(s),
    }
}

/// What the Supervisor that is there is repaired from.
pub fn existing_supervisor(full: Result<Option<Session>, StorageError>) -> (r: Result<
    Session,
    StorageError,
>)
    ensures
        crate::error::result_view(r) == published_supervisor(task_journal::load_view(full)),
{
    match full {
        Err(e) => Err(e),
        Ok(None) => Err(invalid("published Supervisor disappeared")),
        Ok(Some(s)) => Ok(s),
    }
}

// ---------------------------------------------------------------------- publication

/// One step of publishing a root.
#[derive(Debug, Clone, Copy, PartialEq, Eq, Structural)]
pub enum PublishStep {
    CreateStaging,
    CreateChildren,
    CreateAttachments,
    /// Write the session file, durably.
    WriteSession,
    /// Write the runtime sidecar, durably.
    WriteSidecar,
    SyncStaging,
    /// Rename the staging directory to the root's place.
    Rename,
    SyncStagingParent,
    SyncDestinationParent,
    /// Put the root into the index.
    RepairIndex,
    /// Remove what is left of the staging directory.
    RemoveStaging,
    Finished,
}

/// The publication of a root in progress.
pub struct RootPublication {
    pub step: PublishStep,
    pub failure: Option<StorageError>,
}

/// What a [`RootPublication`] holds.
#[verifier::ext_equal]
pub struct PublicationView {
    pub step: PublishStep,
    pub failure: Option<ErrorView>,
}

impl View for RootPublication {
    type V = PublicationView;

    open spec fn view(&self) -> PublicationView {
        PublicationView { step: self.step, failure: task_protocol::opt_error(self.failure) }
    }
}

/// A publication that has not begun.
pub open spec fn publication_start() -> PublicationView {
    PublicationView { step: PublishStep::CreateStaging, failure: None }
}

/// The step after one that was done.
pub open spec fn publish_after(step: PublishStep) -> PublishStep {
    match step {
        PublishStep::CreateStaging => PublishStep::CreateChildren,
        PublishStep::CreateChildren => PublishStep::CreateAttachments,
        PublishStep::CreateAttachments => PublishStep::WriteSession,
        PublishStep::WriteSession => PublishStep::WriteSidecar,
        PublishStep::WriteSidecar => PublishStep::SyncStaging,
        PublishStep::SyncStaging => PublishStep::Rename,
        PublishStep::Rename => PublishStep::SyncStagingParent,
        PublishStep::SyncStagingParent => PublishStep::SyncDestinationParent,
        PublishStep::SyncDestinationParent => PublishStep::RepairIndex,
        PublishStep::RepairIndex => PublishStep::Finished,
        PublishStep::RemoveStaging => PublishStep::Finished,
        PublishStep::Finished => PublishStep::Finished,
    }
}

/// The publication after the outcome of the step that was due. The outcome of the cleanup does
/// not count.
pub open spec fn publication_step(s: PublicationView, outcome: Result<(), ErrorView>) -> PublicationView {
    match s.step {
        PublishStep::Finished => s,
        PublishStep::RemoveStaging => PublicationView { step: PublishStep::Finished, ..s },
        PublishStep::CreateStaging => match outcome {
            Ok(_) => PublicationView { step: PublishStep::CreateChildren, ..s },
            Err(e) => PublicationView { step: PublishStep::Finished, failure: Some(e) },
        },
        _ => match outcome {
            Ok(_) => PublicationView { step: publish_after(s.step), ..s },
            Err(e) => PublicationView { step: PublishStep::RemoveStaging, failure: Some(e) },
        },
    }
}

fn after_step(step: PublishStep) -> (r: PublishStep)
    ensures
        r == publish_after(step),
{
    match step {
        PublishStep::CreateStaging => PublishStep::CreateChildren,
        PublishStep::CreateChildren => PublishStep::CreateAttachments,
        PublishStep::CreateAttachments => PublishStep::WriteSession,
        PublishStep::WriteSession => PublishStep::WriteSidecar,
        PublishStep::WriteSidecar => PublishStep::SyncStaging,
        PublishStep::SyncStaging => PublishStep::Rename,
        PublishStep::Rename => PublishStep::SyncStagingParent,
        PublishStep::SyncStagingParent => PublishStep::SyncDestinationParent,
        PublishStep::SyncDestinationParent => PublishStep::RepairIndex,
        PublishStep::RepairIndex => PublishStep::Finished,
        PublishStep::RemoveStaging => PublishStep::Finished,
        PublishStep::Finished => PublishStep::Finished,
    }
}

impl RootPublication {
    /// A publication that has not begun.
    pub fn begin() -> (r: RootPublication)
        ensures
            r@ == publication_start(),
    {
        RootPublication { step: PublishStep::CreateStaging, failure: None }
    }

    /// Takes the outcome of the step that was due.
    pub fn step(self, outcome: Result<(), StorageError>) -> (r: RootPublication)
        ensures
            r@ == publication_step(self@, error::plain_view(outcome)),
    {
        match self.step {
            PublishStep::Finished => self,
            PublishStep::RemoveStaging => RootPublication { step: PublishStep::Finished, ..self },
            PublishStep::CreateStaging => match outcome {
                Ok(_) => RootPublication { step: PublishStep::CreateChildren, ..self },
                Err(e) => RootPublication { step: PublishStep::Finished, failure: Some(e) },
            },
            _ => match outcome {
                Ok(_) => RootPublication { step: after_step(self.step), ..self },
                Err(e) => RootPublication { step: PublishStep::RemoveStaging, failure: Some(e) },
            },
        }
    }
}

// ----------------------------------------------------------------------------- laws

/// How much of a root stands aside and at its place.
pub struct PublicationDisk {
    /// Whether the staging directory holds both files, written and synchronized.
    pub staged: bool,
    /// Whether something stands at the root's place.
    pub published: bool,
    /// Whether what stands there is complete.
    pub complete: bool,
}

/// Whether `e` can be the disk after a step on `d`. A rename moves the staging directory as it
/// is or, where it fails, does nothing; every other step leaves the root's place alone, and the
/// staging directory is complete once it was synchronized.
pub open spec fn published_by(step: PublishStep, d: PublicationDisk, ok: bool, e: PublicationDisk) -> bool {
    match step {
        PublishStep::SyncStaging => e.published == d.published && e.complete == d.complete && (ok
            ==> e.staged),
        PublishStep::Rename => if ok {
            e.published && e.complete == d.staged
        } else {
            e == d
        },
        _ => e.published == d.published && e.complete == d.complete && (step
            != PublishStep::RemoveStaging ==> d.staged ==> e.staged),
    }
}

/// What holds of the disk in each step of a publication.
pub open spec fn publication_disk(s: PublicationView, d: PublicationDisk) -> bool {
    let before = match s.step {
        PublishStep::CreateStaging
        | PublishStep::CreateChildren
        | PublishStep::CreateAttachments
        | PublishStep::WriteSession
        | PublishStep::WriteSidecar
        | PublishStep::SyncStaging
        | PublishStep::Rename => true,
        _ => false,
    };
    &&& d.published ==> d.complete
    &&& before ==> !d.published
    &&& s.step == PublishStep::Rename ==> d.staged
    &&& !before && s.failure is None ==> d.published
    &&& s.step == PublishStep::RemoveStaging ==> s.failure is Some
}

/// A root appears at its place complete or not at all, whichever step of its publication fails or
/// is cut short; a publication that is answered with success has published it, and a failure
/// after that point leaves it where it is.
pub proof fn a_root_appears_complete(
    s: PublicationView,
    d: PublicationDisk,
    outcome: Result<(), ErrorView>,
    e: PublicationDisk,
)
    requires
        publication_disk(s, d),
        published_by(s.step, d, outcome is Ok, e),
    ensures
        publication_disk(publication_step(s, outcome), e),
        e.published ==> e.complete,
        d.published ==> e.published,
{
}

/// The session that a bootstrap publishes holds Supervisor authority by right, with a model.
pub proof fn bootstrap_publishes_valid_authority(
    default_id: Seq<char>,
    model: Seq<char>,
    incarnation_id: u128,
    now: Timestamp,
)
    requires
        incarnation_id != 0,
    ensures
        supervisor::identity_valid(blank_supervisor(default_id, model, incarnation_id, now), default_id),
        blank_supervisor(default_id, model, incarnation_id, now).messages.len() == 0,
{
}

/// A bootstrap creates nothing where anything stands under the Supervisor's id: it finds the
/// Supervisor itself, or fails.
pub proof fn bootstrap_never_replaces(
    existing: Result<Option<SessionView>, ErrorView>,
    owner: LegacyOwner,
    model: Seq<char>,
    default_id: Seq<char>,
)
    requires
        bootstrap_start(existing, owner, model, default_id) == Ok::<BootstrapStart, ErrorView>(
            BootstrapStart::Create,
        ),
    ensures
        existing == Ok::<Option<SessionView>, ErrorView>(None),
        text::trimmed(model).len() > 0,
{
}

/// A bootstrap that finds Supervisor authority gives that Supervisor's incarnation, whatever
/// model is asked for.
pub proof fn a_bootstrap_keeps_the_incarnation(
    s: SessionView,
    incarnation_id: u128,
    owner: LegacyOwner,
    model: Seq<char>,
    default_id: Seq<char>,
)
    requires
        s.authority_identity == (SessionAuthorityIdentity::Supervisor { incarnation_id }),
    ensures
        bootstrap_start(Ok(Some(s)), owner, model, default_id) == Ok::<BootstrapStart, ErrorView>(
            BootstrapStart::Existing { incarnation_id },
        ),
{
}

/// A second bootstrap finds the first: once the files of a new Supervisor stand at its place, its
/// authority loads, and every later bootstrap gives the same incarnation.
pub proof fn a_second_bootstrap_finds_the_first(
    default_id: Seq<char>,
    model: Seq<char>,
    incarnation_id: u128,
    now: Timestamp,
    f: RootFiles,
    owner: LegacyOwner,
    other_model: Seq<char>,
)
    requires
        paths::id_check(default_id) is Ok,
        incarnation_id != 0,
        f.sessions_directory is Directory,
        f.directory is Directory,
        f.main_file is File,
        f.runtime_file is File,
        f.main is Parsed,
        f.runtime is Parsed,
        f.runtime->Parsed_0@ == blank_supervisor(default_id, model, incarnation_id, now),
        supervisor::states_identity_of(f.main->Parsed_0, f.runtime->Parsed_0@),
    ensures
        ({
            let authority = supervisor::root_authority(default_id, f, default_id);
            &&& authority is Ok && authority->Ok_0 is Some
            &&& authority->Ok_0->0.authority_identity == (
                SessionAuthorityIdentity::Supervisor { incarnation_id })
            &&& bootstrap_start(authority, owner, other_model, default_id) == Ok::<
                BootstrapStart,
                ErrorView,
            >(BootstrapStart::Existing { incarnation_id })
        }),
{
    bootstrap_publishes_valid_authority(default_id, model, incarnation_id, now);
}

/// A new Supervisor is a root of itself under the given id, born now, with the trimmed model and
/// nothing said in it.
pub proof fn a_new_supervisor_is_blank(
    default_id: Seq<char>,
    model: Seq<char>,
    incarnation_id: u128,
    now: Timestamp,
)
    ensures
        ({
            let s = blank_supervisor(default_id, model, incarnation_id, now);
            &&& s.id == default_id && s.root_session_id == default_id
            &&& s.kind == SessionKind::Root && s.parent_session_id is None && s.spawn_depth == 0
            &&& s.model == text::trimmed(model) && s.title == "Supervisor"@
            &&& s.created_at == now && s.updated_at == now
            &&& s.authority_identity == (SessionAuthorityIdentity::Supervisor { incarnation_id })
            &&& s.messages.len() == 0
        }),
{
}

/// A bootstrap creates a Supervisor wherever nothing stands under its id and a model is given, and
/// fails with what stands in the way elsewhere: an ordinary session, a blank model, or whatever the
/// load failed with.
pub proof fn what_a_bootstrap_finds(
    existing: Result<Option<SessionView>, ErrorView>,
    owner: LegacyOwner,
    main: Session,
    model: Seq<char>,
    default_id: Seq<char>,
)
    ensures
        ({
            let r = bootstrap_start(existing, owner, model, default_id);
            &&& existing == Ok::<Option<SessionView>, ErrorView>(None) && text::trimmed(model).len() > 0
                ==> r == Ok::<BootstrapStart, ErrorView>(BootstrapStart::Create)
            &&& existing == Ok::<Option<SessionView>, ErrorView>(None) && text::trimmed(model).len()
                == 0 ==> r is Err && r->Err_0.kind == ErrorKind::InvalidInput
            &&& existing is Ok && existing->Ok_0 is Some && existing->Ok_0->0.authority_identity
                == SessionAuthorityIdentity::Ordinary ==> r is Err && r->Err_0.kind
                == ErrorKind::AlreadyExists
            &&& existing is Err ==> r is Err
            &&& existing is Err && owner.runtime_missing && owner.main_file is File && owner.main
                == SessionFile::Parsed(main) && main@.id == default_id && main@.root_session_id
                == default_id && main@.kind == SessionKind::Root && main@.parent_session_id is None
                && main@.spawn_depth == 0 && main@.authority_identity
                == SessionAuthorityIdentity::Ordinary ==> r->Err_0.kind == ErrorKind::AlreadyExists
            &&& existing is Err && (!owner.runtime_missing || !(owner.main_file is File)
                || !(owner.main is Parsed)) ==> r->Err_0 == existing->Err_0
            &&& existing is Err && owner.main == SessionFile::Parsed(main) && (main@.id != default_id
                || main@.kind != SessionKind::Root || main@.parent_session_id is Some
                || main@.spawn_depth != 0 || main@.authority_identity
                != SessionAuthorityIdentity::Ordinary) ==> r->Err_0 == existing->Err_0
        }),
{
}

/// A publication after its first `n` steps, where each was done.
pub open spec fn published_so_far(n: nat) -> PublicationView
    decreases n,
{
    if n == 0 {
        publication_start()
    } else {
        publication_step(published_so_far((n - 1) as nat), Ok(()))
    }
}

/// Undisturbed, a publication stages the directories and both files, synchronizes them, renames
/// them to the root's place, synchronizes both parents, and then puts the root into the index.
pub proof fn a_publication_takes_every_step()
    ensures
        published_so_far(0).step == PublishStep::CreateStaging,
        published_so_far(1).step == PublishStep::CreateChildren,
        published_so_far(2).step == PublishStep::CreateAttachments,
        published_so_far(3).step == PublishStep::WriteSession,
        published_so_far(4).step == PublishStep::WriteSidecar,
        published_so_far(5).step == PublishStep::SyncStaging,
        published_so_far(6).step == PublishStep::Rename,
        published_so_far(7).step == PublishStep::SyncStagingParent,
        published_so_far(8).step == PublishStep::SyncDestinationParent,
        published_so_far(9).step == PublishStep::RepairIndex,
        published_so_far(10) == (PublicationView { step: PublishStep::Finished, failure: None }),
{
    reveal_with_fuel(published_so_far, 12);
}

/// A step that fails ends a publication with that failure: at once where nothing is staged yet, and
/// else after what is staged has been removed, whatever comes of that.
pub proof fn a_failed_publication_cleans_up(
    s: PublicationView,
    e: ErrorView,
    outcome: Result<(), ErrorView>,
)
    ensures
        s.step == PublishStep::CreateStaging ==> publication_step(s, Err(e)) == (PublicationView {
            step: PublishStep::Finished,
            failure: Some(e),
        }),
        s.step != PublishStep::CreateStaging && s.step != PublishStep::RemoveStaging && s.step
            != PublishStep::Finished ==> publication_step(s, Err(e)) == (PublicationView {
            step: PublishStep::RemoveStaging,
            failure: Some(e),
        }),
        s.step == PublishStep::RemoveStaging ==> publication_step(s, outcome) == (PublicationView {
            step: PublishStep::Finished,
            failure: s.failure,
        }),
        s.step == PublishStep::Finished ==> publication_step(s, outcome) == s,
{
}

/// What is said of these values is said of their own fields: none is left out or exchanged.
pub proof fn nothing_is_left_unseen(a: RootPublication)
    ensures
        a@.failure is Some <==> a.failure is Some,
        a.failure is Some ==> a@.failure->0 == a.failure->0@,
        a@.step == a.step,
{
}

/// The Supervisor that is there is repaired from what was loaded of it; one that is gone is a failure.
pub proof fn a_repair_takes_what_was_loaded(s: SessionView, e: ErrorView)
    ensures
        published_supervisor(Ok(Some(s))) == Ok::<SessionView, ErrorView>(s),
        published_supervisor(Err(e)) == Err::<SessionView, ErrorView>(e),
        published_supervisor(Ok(None)) is Err,
{
}

} // verus!
