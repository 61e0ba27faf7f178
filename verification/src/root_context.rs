//! The last check before a root is written: its context revision and its creation identity.
use crate::error::{ErrorKind, ErrorView, StorageError};
use crate::error;
use crate::paths::validate_session_id;
use crate::paths;
use crate::probe::{Probe, SessionFile};
use crate::session::{Session, SessionKind, SessionView};
use crate::text::{join2, join3, same_option_text, same_text};
use vstd::prelude::*;

verus! {

/// A conflict with the context of a root.
pub open spec fn context_conflict(message: Seq<char>) -> ErrorView {
    error::conflict_error(
        ErrorKind::WouldBlock,
        "Root context changed or unavailable: "@ + message,
    )
}

/// A conflict with the context of a root.
pub fn conflict(message: &str) -> (e: StorageError)
    ensures
        e@ == context_conflict(message@),
{
    StorageError::conflict(
        ErrorKind::WouldBlock,
        join2("Root context changed or unavailable: ", message),
    )
}

/// Whether a canonical file is there; `path` names it in messages.
pub open spec fn context_file(p: Probe, path: Seq<char>) -> Result<bool, ErrorView> {
    match p {
        Probe::Missing => Ok(false),
        Probe::Failed(e) => Err(context_conflict(path + ": "@ + e.message@)),
        Probe::File => Ok(true),
        _ => Err(context_conflict("canonical Root context is not a regular file"@)),
    }
}

fn regular_file_exists(p: &Probe, path: &str) -> (r: Result<bool, StorageError>)
    ensures
        error::plain_view(r) == context_file(*p, path@),
{
    match p {
        Probe::Missing => Ok(false),
        Probe::Failed(e) => Err(conflict(&join3(path, ": ", &e.message))),
        Probe::File => Ok(true),
        _ => Err(conflict("canonical Root context is not a regular file")),
    }
}

/// One entry of a root's directory, as far as it was looked at.
pub enum LayoutEntry {
    /// The listing failed here.
    Unreadable(StorageError),
    Entry {
        /// The name, where it is text.
        name: Option<String>,
        directory: Result<bool, StorageError>,
        /// Whether the directory at the entry is empty.
        empty: Result<bool, StorageError>,
    },
}

/// Whether an entry may stand in a root that is only being created: an empty directory for
/// children or attachments.
pub open spec fn layout_entry_check(e: LayoutEntry) -> Result<bool, ErrorView> {
    match e {
        LayoutEntry::Unreadable(f) => Err(f@),
        LayoutEntry::Entry { name, directory, empty } => if name is None || (name->0@
            != "children"@ && name->0@ != "attachments"@) {
            Ok(false)
        } else {
            match directory {
                Err(f) => Err(f@),
                Ok(false) => Ok(false),
                Ok(true) => match empty {
                    Err(f) => Err(f@),
                    Ok(b) => Ok(b),
                },
            }
        },
    }
}

/// Whether the entries are those of a root that is only being created: the first entry that says
/// otherwise, or fails, decides.
pub open spec fn creation_layout(entries: Seq<LayoutEntry>) -> Result<bool, ErrorView>
    decreases entries.len(),
{
    if entries.len() == 0 {
        Ok(true)
    } else {
        match layout_entry_check(entries[0]) {
            Ok(true) => creation_layout(entries.subrange(1, entries.len() as int)),
            other => other,
        }
    }
}

fn check_layout_entry(e: &LayoutEntry) -> (r: Result<bool, StorageError>)
    ensures
        error::plain_view(r) == layout_entry_check(*e),
{
    match e {
        LayoutEntry::Unreadable(f) => Err(f.clone()),
        LayoutEntry::Entry { name, directory, empty } => {
            let known = match name {
                None => false,
                Some(n) => same_text(n, "children") || same_text(n, "attachments"),
            };
            if !known {
                return Ok(false);
            }
            match directory {
                Err(f) => Err(f.clone()),
                Ok(d) => {
                    if !*d {
                        return Ok(false);
                    }
                    match empty {
                        Err(f) => Err(f.clone()),
                        Ok(b) => Ok(*b),
                    }
                },
            }
        },
    }
}

/// Whether the entries of a root's directory are those of a root that is only being created.
pub fn empty_creation_layout(entries: &Vec<LayoutEntry>) -> (r: Result<bool, StorageError>)
    ensures
        error::plain_view(r) == creation_layout(entries@),
{
    let mut i: usize = 0;
    assert(entries@.subrange(0, entries@.len() as int) =~= entries@);
    while i < entries.len()
        invariant
            i <= entries.len(),
            creation_layout(entries@) == creation_layout(
                entries@.subrange(i as int, entries@.len() as int),
            ),
        decreases entries.len() - i,
    {
        let ghost rest = entries@.subrange(i as int, entries@.len() as int);
        assert(rest[0] == entries@[i as int]);
        assert(rest.subrange(1, rest.len() as int) =~= entries@.subrange(
            i + 1,
            entries@.len() as int,
        ));
        match check_layout_entry(&entries[i]) {
            Ok(true) => {},
            Ok(false) => {
                return Ok(false);
            },
            Err(e) => {
                return Err(e);
            },
        }
        i = i + 1;
    }
    Ok(true)
}

/// What was found of a root that is about to be written. `layout` lists its directory, and
/// counts only where both files are missing.
pub struct RootContext {
    pub path: String,
    pub directory: Probe,
    pub main_file: Probe,
    pub runtime_file: Probe,
    pub layout: Result<Vec<LayoutEntry>, StorageError>,
    pub runtime: SessionFile,
}

/// Whether a listing is that of a root that is only being created.
pub open spec fn listed_layout(layout: Result<Vec<LayoutEntry>, StorageError>) -> Result<
    bool,
    ErrorView,
> {
    match layout {
        Err(e) => Err(e@),
        Ok(entries) => creation_layout(entries@),
    }
}

/// Whether the writer's session is of the durable root's creation.
pub open spec fn same_creation(incoming: SessionView, current: SessionView) -> bool {
    &&& current.id == incoming.id
    &&& current.kind == SessionKind::Root
    &&& current.parent_session_id is None
    &&& current.spawn_depth == 0
    &&& current.root_session_id.len() == 0 || current.root_session_id == current.id
    &&& incoming.parent_session_id is None
    &&& incoming.spawn_depth == 0
    &&& incoming.root_session_id.len() == 0 || incoming.root_session_id == incoming.id
    &&& current.created_at == incoming.created_at
    &&& current.authority_identity == incoming.authority_identity
}

/// What a write is answered against the durable runtime file.
pub open spec fn context_check(
    incoming: SessionView,
    current: SessionView,
    has_main: bool,
) -> Result<(), ErrorView> {
    if !same_creation(incoming, current) {
        Err(context_conflict("writer does not match the durable Root creation identity"@))
    } else if incoming.metadata_version < current.metadata_version {
        Err(context_conflict("metadata revision regressed; reload before saving"@))
    } else if incoming.project() != current.project() && incoming.metadata_version
        != current.metadata_version + 1 {
        Err(context_conflict("Project changes require the next metadata revision"@))
    } else if !has_main && (incoming.metadata_version != current.metadata_version
        || incoming.project() != current.project()) {
        Err(context_conflict("completing a partial Root cannot advance its context"@))
    } else {
        Ok(())
    }
}

/// What a write is answered once both files were looked at.
pub open spec fn files_check(
    incoming: SessionView,
    full: bool,
    has_main: bool,
    has_runtime: bool,
    layout: Result<bool, ErrorView>,
    runtime: SessionFile,
) -> Result<(), ErrorView> {
    if !has_main && !full {
        Err(context_conflict("canonical main file is missing"@))
    } else if !has_main && !has_runtime && layout is Err {
        Err(context_conflict(layout->Err_0.message))
    } else if !has_main && !has_runtime && layout == Ok::<bool, ErrorView>(true) {
        Ok(())
    } else if !has_runtime {
        Err(context_conflict("canonical runtime file is missing"@))
    } else {
        match runtime {
            SessionFile::Failed(e) => Err(context_conflict(e.message@)),
            SessionFile::Corrupt(m) => Err(
                context_conflict("invalid canonical runtime: "@ + m@),
            ),
            SessionFile::Missing => Err(context_conflict("canonical runtime file is missing"@)),
            SessionFile::Parsed(current) => context_check(incoming, current@, has_main),
        }
    }
}

/// What a write of a root is answered.
pub open spec fn root_context_check(
    incoming: SessionView,
    full: bool,
    f: RootContext,
) -> Result<(), ErrorView> {
    match paths::id_check(incoming.id) {
        Err(e) => Err(e),
        Ok(_) => match f.directory {
            Probe::Missing => Ok(()),
            Probe::Failed(e) => Err(context_conflict(e.message@)),
            Probe::Directory => if incoming.kind != SessionKind::Root {
                Err(context_conflict("an existing Root cannot be overwritten as a Child"@))
            } else {
                match context_file(f.main_file, f.path@ + "/session.json"@) {
                    Err(e) => Err(e),
                    Ok(has_main) => match context_file(f.runtime_file, f.path@ + "/runtime.json"@) {
                        Err(e) => Err(e),
                        Ok(has_runtime) => files_check(
                            incoming,
                            full,
                            has_main,
                            has_runtime,
                            listed_layout(f.layout),
                            f.runtime,
                        ),
                    },
                }
            },
            _ => Err(context_conflict("canonical Root directory is not a real directory"@)),
        },
    }
}

fn is_root_of_itself(s: &Session) -> (r: bool)
    ensures
        r == (s@.parent_session_id is None && s@.spawn_depth == 0 && (s@.root_session_id.len() == 0
            || s@.root_session_id == s@.id)),
{
    s.parent_session_id.is_none() && s.spawn_depth == 0 && (s.root_session_id.as_str().is_empty()
        || s.root_session_id == s.id)
}

fn check_context(incoming: &Session, current: &Session, has_main: bool) -> (r: Result<
    (),
    StorageError,
>)
    ensures
        error::plain_view(r) == context_check(incoming@, current@, has_main),
{
    if current.id != incoming.id || current.kind != SessionKind::Root || !is_root_of_itself(current)
        || !is_root_of_itself(incoming) || current.created_at != incoming.created_at
        || current.authority_identity != incoming.authority_identity {
        return Err(conflict("writer does not match the durable Root creation identity"));
    }
    if incoming.metadata_version < current.metadata_version {
        return Err(conflict("metadata revision regressed; reload before saving"));
    }
    let same_project = same_option_text(&incoming.project_id_meta(), &current.project_id_meta());
    let next = match current.metadata_version.checked_add(1) {
        Some(n) => n == incoming.metadata_version,
        None => false,
    };
    if !same_project && !next {
        return Err(conflict("Project changes require the next metadata revision"));
    }
    if !has_main && (incoming.metadata_version != current.metadata_version || !same_project) {
        return Err(conflict("completing a partial Root cannot advance its context"));
    }
    Ok(())
}

/// Checks a root against its durable context before it is written: a writer of another creation,
/// of an older metadata revision, or with a Project change out of turn is refused. A missing
/// directory is a first creation.
pub fn validate_root_context_for_write(incoming: &Session, full: bool, files: &RootContext) -> (r:
    Result<(), StorageError>)
    ensures
        error::plain_view(r) == root_context_check(incoming@, full, *files),
{
    match validate_session_id(&incoming.id) {
        Err(e) => {
            return Err(e);
        },
        Ok(_) => {},
    }
    match &files.directory {
        Probe::Missing => {
            return Ok(());
        },
        Probe::Failed(e) => {
            return Err(conflict(&e.message));
        },
        Probe::Directory => {},
        _ => {
            return Err(conflict("canonical Root directory is not a real directory"));
        },
    }
    if incoming.kind != SessionKind::Root {
        return Err(conflict("an existing Root cannot be overwritten as a Child"));
    }
    let has_main = match regular_file_exists(
        &files.main_file,
        &join2(&files.path, "/session.json"),
    ) {
        Err(e) => {
            return Err(e);
        },
        Ok(b) => b,
    };
    let has_runtime = match regular_file_exists(
        &files.runtime_file,
        &join2(&files.path, "/runtime.json"),
    ) {
        Err(e) => {
            return Err(e);
        },
        Ok(b) => b,
    };
    if !has_main {
        if !full {
            return Err(conflict("canonical main file is missing"));
        }
        if !has_runtime {
            let layout = match &files.layout {
                Err(e) => Err(e.clone()),
                Ok(entries) => empty_creation_layout(entries),
            };
            match layout {
                Err(e) => {
                    return Err(conflict(&e.message));
                },
                Ok(fresh) => {
                    if fresh {
                        return Ok(());
                    }
                },
            }
        }
    }
    if !has_runtime {
        return Err(conflict("canonical runtime file is missing"));
    }
    match &files.runtime {
        SessionFile::Failed(e) => Err(conflict(&e.message)),
        SessionFile::Corrupt(m) => Err(conflict(&join2("invalid canonical runtime: ", m))),
        SessionFile::Missing => Err(conflict("canonical runtime file is missing")),
        SessionFile::Parsed(current) => check_context(incoming, current, has_main),
    }
}

/// Checks a root before its control plane or Tasks are written: its pair of files has to be
/// there.
pub fn validate_root_context_for_save(incoming: &Session, files: &RootContext) -> (r: Result<
    (),
    StorageError,
>)
    ensures
        error::plain_view(r) == root_context_check(incoming@, false, *files),
{
    validate_root_context_for_write(incoming, false, files)
}

/// Checks a root before it is written in full: that may finish an interrupted creation, or put a
/// missing main file back.
pub fn validate_root_context_for_full_save(incoming: &Session, files: &RootContext) -> (r: Result<
    (),
    StorageError,
>)
    ensures
        error::plain_view(r) == root_context_check(incoming@, true, *files),
{
    validate_root_context_for_write(incoming, true, files)
}

// -------------------------------------------------------------------------------- laws

/// A write that is let through over a durable root keeps its creation identity and takes neither
/// its metadata revision nor its Project back: the revision never falls, and the Project changes
/// only together with the next revision.
pub proof fn accepted_writes_keep_the_context(
    incoming: SessionView,
    full: bool,
    f: RootContext,
    current: SessionView,
)
    requires
        root_context_check(incoming, full, f) is Ok,
        f.directory is Directory,
        f.runtime_file is File,
        f.runtime is Parsed,
        f.runtime->Parsed_0@ == current,
    ensures
        incoming.kind == SessionKind::Root,
        same_creation(incoming, current),
        incoming.metadata_version >= current.metadata_version,
        incoming.project() != current.project() ==> incoming.metadata_version
            == current.metadata_version + 1 && f.main_file is File,
        !full ==> f.main_file is File,
{
}

/// Of two writers that saw the same revision and both change the Project, the second is refused
/// once the first is durable, unless both chose the same one.
pub proof fn a_project_change_wins_once(
    first: SessionView,
    second: SessionView,
    current: SessionView,
)
    requires
        context_check(first, current, true) is Ok,
        context_check(second, current, true) is Ok,
        first.project() != current.project(),
        second.project() != current.project(),
        first.project() != second.project(),
    ensures
        context_check(second, first, true) is Err,
{
}

/// The history of a root is no authority: where its session file stands and its runtime file is
/// missing or cannot be parsed, no writer of that root is let through.
pub proof fn no_write_without_the_runtime_file(incoming: SessionView, full: bool, f: RootContext)
    requires
        incoming.kind == SessionKind::Root,
        f.directory is Directory,
        f.main_file is File,
        f.runtime_file is Missing || (f.runtime_file is File && f.runtime is Corrupt),
    ensures
        root_context_check(incoming, full, f) is Err,
{
}

/// A root is only being created exactly where its directory lists nothing but empty directories for
/// children and attachments.
pub proof fn what_a_creation_leaves(entries: Seq<LayoutEntry>)
    ensures
        creation_layout(entries) == Ok::<bool, ErrorView>(true) <==> forall|i: int|
            0 <= i < entries.len() ==> match #[trigger] entries[i] {
                LayoutEntry::Unreadable(_) => false,
                LayoutEntry::Entry { name, directory, empty } => name is Some && (name->0@
                    == "children"@ || name->0@ == "attachments"@) && directory == Ok::<
                    bool,
                    StorageError,
                >(true) && empty == Ok::<bool, StorageError>(true),
            },
    decreases entries.len(),
{
    if entries.len() > 0 {
        let rest = entries.subrange(1, entries.len() as int);
        what_a_creation_leaves(rest);
        assert forall|i: int| 0 <= i < rest.len() implies rest[i] == #[trigger] entries[i + 1] by {}
        if creation_layout(entries) == Ok::<bool, ErrorView>(true) {
            assert forall|i: int| 0 <= i < entries.len() implies match #[trigger] entries[i] {
                LayoutEntry::Unreadable(_) => false,
                LayoutEntry::Entry { name, directory, empty } => name is Some && (name->0@
                    == "children"@ || name->0@ == "attachments"@) && directory == Ok::<
                    bool,
                    StorageError,
                >(true) && empty == Ok::<bool, StorageError>(true),
            } by {
                if i > 0 {
                    assert(rest[i - 1] == entries[i]);
                } else {
                    assert(layout_entry_check(entries[0]) == Ok::<bool, ErrorView>(true));
                }
            }
        }
        if forall|i: int|
            0 <= i < entries.len() ==> match #[trigger] entries[i] {
                LayoutEntry::Unreadable(_) => false,
                LayoutEntry::Entry { name, directory, empty } => name is Some && (name->0@
                    == "children"@ || name->0@ == "attachments"@) && directory == Ok::<
                    bool,
                    StorageError,
                >(true) && empty == Ok::<bool, StorageError>(true),
            } {
            assert(layout_entry_check(entries[0]) == Ok::<bool, ErrorView>(true));
            assert forall|i: int| 0 <= i < rest.len() implies match #[trigger] rest[i] {
                LayoutEntry::Unreadable(_) => false,
                LayoutEntry::Entry { name, directory, empty } => name is Some && (name->0@
                    == "children"@ || name->0@ == "attachments"@) && directory == Ok::<
                    bool,
                    StorageError,
                >(true) && empty == Ok::<bool, StorageError>(true),
            } by {
                assert(rest[i] == entries[i + 1]);
            }
        }
    }
}

/// A writer is of the durable root's creation where both are roots of themselves under one id, of one
/// creation time and one authority.
pub proof fn what_makes_one_creation(incoming: SessionView, current: SessionView)
    ensures
        same_creation(incoming, current) <==> current.id == incoming.id && current.created_at
            == incoming.created_at && current.authority_identity == incoming.authority_identity
            && current.kind == SessionKind::Root && current.parent_session_id is None
            && incoming.parent_session_id is None && current.spawn_depth == 0
            && incoming.spawn_depth == 0 && (current.root_session_id.len() == 0
            || current.root_session_id == current.id) && (incoming.root_session_id.len() == 0
            || incoming.root_session_id == incoming.id),
{
}

/// A writer of a root is let through wherever the root has no directory yet; where both files stand,
/// it is of the durable creation, does not fall behind the durable revision and changes the Project
/// only with the next one; and, writing in full, where it finishes a creation that was cut short or
/// puts a missing session file back without advancing the context.
pub proof fn which_writers_are_let_through(
    incoming: SessionView,
    full: bool,
    f: RootContext,
    current: Session,
)
    requires
        paths::id_check(incoming.id) is Ok,
        incoming.kind == SessionKind::Root,
    ensures
        f.directory is Missing ==> root_context_check(incoming, full, f) is Ok,
        f.directory is Directory && f.main_file is File && f.runtime_file is File && f.runtime
            == SessionFile::Parsed(current) ==> (root_context_check(incoming, full, f) is Ok
            <==> same_creation(incoming, current@) && incoming.metadata_version
            >= current@.metadata_version && (incoming.project() != current@.project()
            ==> incoming.metadata_version == current@.metadata_version + 1)),
        f.directory is Directory && f.main_file is Missing && f.runtime_file is File && f.runtime
            == SessionFile::Parsed(current) ==> (root_context_check(incoming, full, f) is Ok <==> full
            && same_creation(incoming, current@) && incoming.metadata_version
            == current@.metadata_version && incoming.project() == current@.project()),
        f.directory is Directory && f.main_file is Missing && f.runtime_file is Missing ==> (
        root_context_check(incoming, full, f) is Ok <==> full && f.layout is Ok && creation_layout(
            f.layout->Ok_0@,
        ) == Ok::<bool, ErrorView>(true)),
        f.directory is File || f.directory is Other || f.directory is Failed ==> root_context_check(
            incoming,
            full,
            f,
        ) is Err,
{
}

/// A child is let through exactly where no root stands under its id.
pub proof fn a_child_is_no_root(incoming: SessionView, full: bool, f: RootContext)
    requires
        paths::id_check(incoming.id) is Ok,
        incoming.kind == SessionKind::Child,
    ensures
        root_context_check(incoming, full, f) is Ok <==> f.directory is Missing,
{
}

/// Every refusal by the context rule is a conflict with durable authority that may pass, with its
/// reason in its message.
pub proof fn how_a_context_is_refused(message: Seq<char>)
    ensures
        context_conflict(message).kind == ErrorKind::WouldBlock,
        context_conflict(message).authority_conflict,
        context_conflict(message).message == "Root context changed or unavailable: "@ + message,
{
}

} // verus!
