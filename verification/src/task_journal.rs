//! Task lists and generations: undo journals, compare-and-set commits and the rule that an
//! ordinary save never takes a Task generation back.
use crate::error::{ErrorKind, ErrorView, StorageError};
use crate::error;
use crate::outside::parse_uuid;
use crate::outside;
use crate::paths::{extension, file_stem, validate_session_id};
use crate::paths;
use crate::root_fence::{validate_root_for_write, RootFence};
use crate::root_fence;
use crate::session::{clone_opt, Session, SessionView};
use crate::session;
use crate::text::{decimal, join2, less, parse_u64, same_option_text, same_text, sort_texts};
use crate::text;
use vstd::prelude::*;

verus! {

/// Directory of the undo journals, under the home directory.
pub const RUNTIME_TASK_TRANSACTION_DIR: &'static str = ".runtime-task-transactions";

/// File that guards every runtime sidecar against a paired Task commit.
pub const RUNTIME_TASK_TRANSACTION_LOCK_FILE: &'static str = ".runtime-task-transactions.lock";

/// Version of the undo journals.
pub const RUNTIME_TASK_TRANSACTION_VERSION: u32 = 1;

// ---------------------------------------------------------------------- markers

/// How far the transaction behind an undo journal has come.
#[derive(Debug, Clone, Copy, PartialEq, Eq, Structural)]
pub enum RuntimeTaskJournalMarkerState {
    Prepared,
    Committing,
    Committed,
}

/// The state that a file extension stands for.
pub open spec fn marker_state(ext: Option<Seq<char>>) -> Option<RuntimeTaskJournalMarkerState> {
    match ext {
        None => None,
        Some(e) => if e == "json"@ {
            Some(RuntimeTaskJournalMarkerState::Prepared)
        } else if e == "committing"@ {
            Some(RuntimeTaskJournalMarkerState::Committing)
        } else if e == "committed"@ {
            Some(RuntimeTaskJournalMarkerState::Committed)
        } else {
            None
        },
    }
}

impl RuntimeTaskJournalMarkerState {
    /// The state that a journal's file name stands for.
    pub fn from_path(path: &str) -> (r: Option<RuntimeTaskJournalMarkerState>)
        ensures
            r == marker_state(paths::extension_of(path@)),
    {
        match extension(path) {
            None => None,
            Some(e) => if same_text(&e, "json") {
                Some(RuntimeTaskJournalMarkerState::Prepared)
            } else if same_text(&e, "committing") {
                Some(RuntimeTaskJournalMarkerState::Committing)
            } else if same_text(&e, "committed") {
                Some(RuntimeTaskJournalMarkerState::Committed)
            } else {
                None
            },
        }
    }
}

/// One entry of a directory.
pub struct DirEntry {
    pub name: String,
    /// Whether the entry is a regular file; one whose type cannot be read is not.
    pub is_file: bool,
}

/// The names of the entries that are journals, in the order of the listing.
pub open spec fn journal_names_of(entries: Seq<DirEntry>) -> Seq<String>
    decreases entries.len(),
{
    if entries.len() == 0 {
        Seq::empty()
    } else {
        let head = journal_names_of(entries.drop_last());
        let last = entries.last();
        if last.is_file && marker_state(paths::extension_of(last.name@)) is Some {
            head.push(last.name)
        } else {
            head
        }
    }
}

/// The names of the journals in a directory listing, in ascending order.
pub fn runtime_task_journal_paths(entries: &Vec<DirEntry>) -> (r: Vec<String>)
    ensures
        text::in_order(r@),
        r@.to_multiset() == journal_names_of(entries@).to_multiset(),
        r.len() == journal_names_of(entries@).len(),
{
    let mut names: Vec<String> = Vec::new();
    let mut i: usize = 0;
    assert(entries@.take(0) =~= Seq::<DirEntry>::empty());
    while i < entries.len()
        invariant
            i <= entries.len(),
            names@ == journal_names_of(entries@.take(i as int)),
        decreases entries.len() - i,
    {
        assert(entries@.take(i + 1).drop_last() =~= entries@.take(i as int));
        if entries[i].is_file && RuntimeTaskJournalMarkerState::from_path(
            &entries[i].name,
        ).is_some() {
            names.push(entries[i].name.clone());
        }
        i = i + 1;
    }
    assert(entries@.take(entries@.len() as int) =~= entries@);
    sort_texts(names)
}

// --------------------------------------------------------------------- journals

/// The Tasks of one session before a transaction.
pub struct TaskControlPlaneUndo {
    pub session_id: String,
    pub task_list: Option<String>,
    pub task_list_version: String,
}

/// What a [`TaskControlPlaneUndo`] holds.
#[verifier::ext_equal]
pub struct UndoView {
    pub session_id: Seq<char>,
    pub task_list: Option<Seq<char>>,
    pub task_list_version: Seq<char>,
}

impl View for TaskControlPlaneUndo {
    type V = UndoView;

    open spec fn view(&self) -> UndoView {
        UndoView {
            session_id: self.session_id@,
            task_list: session::opt_text(self.task_list),
            task_list_version: self.task_list_version@,
        }
    }
}

/// The undo journal of a transaction over two sessions.
pub struct RuntimeTaskTransactionJournal {
    pub version: u32,
    pub transaction_id: String,
    pub first: TaskControlPlaneUndo,
    pub second: TaskControlPlaneUndo,
}

/// What a [`RuntimeTaskTransactionJournal`] holds.
#[verifier::ext_equal]
pub struct JournalView {
    pub version: u32,
    pub transaction_id: Seq<char>,
    pub first: UndoView,
    pub second: UndoView,
}

impl View for RuntimeTaskTransactionJournal {
    type V = JournalView;

    open spec fn view(&self) -> JournalView {
        JournalView {
            version: self.version,
            transaction_id: self.transaction_id@,
            first: self.first@,
            second: self.second@,
        }
    }
}

/// What checking a journal read from `path` gives, where `parsed` is what the UUID parser
/// makes of the file's stem.
pub open spec fn task_journal_check(
    path: Seq<char>,
    j: JournalView,
    parsed: Result<u128, Seq<char>>,
) -> Result<(), ErrorView> {
    if j.version != RUNTIME_TASK_TRANSACTION_VERSION {
        Err(
            error::plain_error(
                ErrorKind::InvalidData,
                "unsupported runtime Task transaction journal version "@ + text::decimal_text(
                    j.version as nat,
                ),
            ),
        )
    } else if paths::stem_of(path) is None {
        Err(error::plain_error(ErrorKind::InvalidData, "invalid journal name"@))
    } else if parsed is Err {
        Err(
            error::plain_error(
                ErrorKind::InvalidData,
                "invalid runtime Task transaction journal UUID: "@ + parsed->Err_0,
            ),
        )
    } else if j.transaction_id != paths::stem_of(path)->0 {
        Err(
            error::plain_error(
                ErrorKind::InvalidData,
                "runtime Task transaction journal id does not match its filename"@,
            ),
        )
    } else if paths::id_check(j.first.session_id) is Err {
        paths::id_check(j.first.session_id)
    } else if paths::id_check(j.second.session_id) is Err {
        paths::id_check(j.second.session_id)
    } else if !text::text_less(j.first.session_id, j.second.session_id) {
        Err(
            error::plain_error(
                ErrorKind::InvalidData,
                "runtime Task transaction journal pair is not lexically ordered"@,
            ),
        )
    } else {
        Ok(())
    }
}

/// The characters of the failure in a parse result.
pub open spec fn parse_view(p: Result<u128, String>) -> Result<u128, Seq<char>> {
    match p {
        Ok(n) => Ok(n),
        Err(e) => Err(e@),
    }
}

/// Checks a journal read from `path` against what the UUID parser made of the file's stem.
pub fn check_runtime_task_journal(
    path: &str,
    journal: &RuntimeTaskTransactionJournal,
    parsed: &Result<u128, String>,
) -> (r: Result<(), StorageError>)
    ensures
        error::plain_view(r) == task_journal_check(path@, journal@, parse_view(*parsed)),
{
    if journal.version != RUNTIME_TASK_TRANSACTION_VERSION {
        return Err(
            StorageError::new(
                ErrorKind::InvalidData,
                join2(
                    "unsupported runtime Task transaction journal version ",
                    &decimal(journal.version as u64),
                ),
            ),
        );
    }
    let file_id = match file_stem(path) {
        Some(s) => s,
        None => {
            return Err(
                StorageError::new(ErrorKind::InvalidData, "invalid journal name".to_owned()),
            );
        },
    };
    match parsed {
        Err(e) => {
            return Err(
                StorageError::new(
                    ErrorKind::InvalidData,
                    join2("invalid runtime Task transaction journal UUID: ", e),
                ),
            );
        },
        Ok(_) => {},
    }
    if journal.transaction_id != file_id {
        return Err(
            StorageError::new(
                ErrorKind::InvalidData,
                "runtime Task transaction journal id does not match its filename".to_owned(),
            ),
        );
    }
    match validate_session_id(&journal.first.session_id) {
        Err(e) => {
            return Err(e);
        },
        Ok(_) => {},
    }
    match validate_session_id(&journal.second.session_id) {
        Err(e) => {
            return Err(e);
        },
        Ok(_) => {},
    }
    if !less(&journal.first.session_id, &journal.second.session_id) {
        return Err(
            StorageError::new(
                ErrorKind::InvalidData,
                "runtime Task transaction journal pair is not lexically ordered".to_owned(),
            ),
        );
    }
    Ok(())
}

/// The stem of a file name, or nothing at all where there is none.
pub open spec fn stem_text(path: Seq<char>) -> Seq<char> {
    match paths::stem_of(path) {
        Some(s) => s,
        None => Seq::empty(),
    }
}

/// Checks a journal read from `path`.
pub fn validate_runtime_task_journal(
    path: &str,
    journal: &RuntimeTaskTransactionJournal,
) -> (r: Result<(), StorageError>)
    ensures
        error::plain_view(r) == task_journal_check(path@, journal@, outside::parsed_uuid(stem_text(path@))),
{
    let stem = match file_stem(path) {
        Some(s) => s,
        None => String::new(),
    };
    let parsed = parse_uuid(&stem);
    check_runtime_task_journal(path, journal, &parsed)
}

// ----------------------------------------------------------------- Task equality

/// Whether both sessions hold the same Tasks.
pub open spec fn same_tasks(a: SessionView, b: SessionView) -> bool {
    a.task_generation() == b.task_generation() && a.task_list == b.task_list
}

/// Whether both sessions hold the same Tasks.
pub fn runtime_task_owned_snapshot_matches(current: &Session, expected: &Session) -> (r: bool)
    ensures
        r == same_tasks(current@, expected@),
{
    same_option_text(&current.task_list_version_meta(), &expected.task_list_version_meta())
        && same_option_text(&current.task_list, &expected.task_list)
}

/// The session without its Task list and generation.
pub fn runtime_task_non_task_snapshot(session: &Session) -> (r: Session)
    ensures
        r@ == session@.without_tasks(),
{
    let mut s = session.duplicate();
    s.clear_tasks();
    s
}

/// Whether both sessions agree in everything but their Tasks.
pub fn same_without_tasks(a: &Session, b: &Session) -> (r: bool)
    ensures
        r == (a@.without_tasks() == b@.without_tasks()),
{
    runtime_task_non_task_snapshot(a).same(&runtime_task_non_task_snapshot(b))
}

// --------------------------------------------------------------- no regression

/// Whether an ordinary save of `incoming` would take back the Tasks of `durable`.
pub open spec fn task_write_regresses(incoming: SessionView, durable: SessionView) -> bool {
    if same_tasks(incoming, durable) {
        false
    } else {
        match (incoming.task_generation(), durable.task_generation()) {
            (_, None) => false,
            (None, Some(_)) => true,
            (Some(i), Some(d)) => match (text::parsed_u64(i), text::parsed_u64(d)) {
                (Some(x), Some(y)) => x <= y,
                _ => true,
            },
        }
    }
}

/// Whether an ordinary save of `incoming` would take back the Tasks of `durable`.
pub fn ordinary_task_write_would_regress(incoming: &Session, durable: &Session) -> (r: bool)
    ensures
        r == task_write_regresses(incoming@, durable@),
{
    if runtime_task_owned_snapshot_matches(incoming, durable) {
        return false;
    }
    let i = incoming.task_list_version_meta();
    let d = durable.task_list_version_meta();
    match (i, d) {
        (_, None) => false,
        (None, Some(_)) => true,
        (Some(i), Some(d)) => match (parse_u64(&i), parse_u64(&d)) {
            (Some(x), Some(y)) => x <= y,
            _ => true,
        },
    }
}

/// What begins the message of a save that lost to a newer Task generation.
pub const TASK_CONTROL_PLANE_CONFLICT_PREFIX: &'static str =
    "Task control-plane changed while saving session ";

/// What an ordinary save of `incoming` is answered, where `durable` is what loading the
/// durable control plane gave.
pub open spec fn task_regression_check(
    incoming: SessionView,
    durable: Result<Option<SessionView>, ErrorView>,
) -> Result<(), ErrorView> {
    match durable {
        Err(e) => Err(e),
        Ok(None) => Ok(()),
        Ok(Some(d)) => if task_write_regresses(incoming, d) {
            Err(
                error::plain_error(
                    ErrorKind::WouldBlock,
                    TASK_CONTROL_PLANE_CONFLICT_PREFIX@ + incoming.id,
                ),
            )
        } else {
            Ok(())
        },
    }
}

/// What a load gave.
pub open spec fn load_view(
    r: Result<Option<Session>, StorageError>,
) -> Result<Option<SessionView>, ErrorView> {
    match r {
        Ok(Some(s)) => Ok(Some(s@)),
        Ok(None) => Ok(None),
        Err(e) => Err(e@),
    }
}

/// Rejects an ordinary save that would take back durable Tasks, before anything is written.
pub fn reject_regressing_runtime_task(
    incoming: &Session,
    durable: &Result<Option<Session>, StorageError>,
) -> (r: Result<(), StorageError>)
    ensures
        error::plain_view(r) == task_regression_check(incoming@, load_view(*durable)),
{
    match durable {
        Err(e) => Err(e.clone()),
        Ok(None) => Ok(()),
        Ok(Some(d)) => {
            if ordinary_task_write_would_regress(incoming, d) {
                Err(
                    StorageError::new(
                        ErrorKind::WouldBlock,
                        join2(TASK_CONTROL_PLANE_CONFLICT_PREFIX, &incoming.id),
                    ),
                )
            } else {
                Ok(())
            }
        },
    }
}

// ---------------------------------------------------------- one-session commit

/// What is written for a Task update of one session, if anything. The fence is asked about what
/// would be written: the durable session with the new Tasks.
pub open spec fn single_commit(
    original: SessionView,
    updated: SessionView,
    current: Result<Option<SessionView>, ErrorView>,
    fence: RootFence,
) -> Result<Option<SessionView>, ErrorView> {
    if paths::id_check(original.id) is Err {
        Err(paths::id_check(original.id)->Err_0)
    } else if paths::id_check(updated.id) is Err {
        Err(paths::id_check(updated.id)->Err_0)
    } else if original.id != updated.id {
        Err(
            error::plain_error(
                ErrorKind::InvalidInput,
                "single Task snapshots must preserve the session id"@,
            ),
        )
    } else if original.without_tasks() != updated.without_tasks() {
        Err(
            error::plain_error(
                ErrorKind::InvalidInput,
                "single Task update modifies fields outside Task list/generation"@,
            ),
        )
    } else if updated.task_list is None || updated.task_generation() is None {
        Err(
            error::plain_error(
                ErrorKind::InvalidInput,
                "single Task update requires a list and generation"@,
            ),
        )
    } else {
        match current {
            Err(e) => Err(e),
            Ok(None) => Ok(None),
            Ok(Some(c)) => if c.authority_identity != original.authority_identity || !same_tasks(
                c,
                original,
            ) {
                Ok(None)
            } else {
                let commit = c.with_tasks(updated.task_list, updated.task_generation()->0);
                match root_fence::root_fence_check(commit, false, fence) {
                    Err(e) => Err(e),
                    Ok(_) => Ok(Some(commit)),
                }
            },
        }
    }
}

fn invalid_input(message: &str) -> (e: StorageError)
    ensures
        e@ == error::plain_error(ErrorKind::InvalidInput, message@),
{
    StorageError::new(ErrorKind::InvalidInput, message.to_owned())
}

/// Decides a Task update of one session: the session to write durably, or nothing where the
/// durable Tasks are no longer the expected ones. `fence` is what was found about the session.
pub fn save_runtime_task_control_plane_if_matches(
    original: &Session,
    updated: &Session,
    current: Result<Option<Session>, StorageError>,
    fence: &RootFence,
) -> (r: Result<Option<Session>, StorageError>)
    ensures
        load_view(r) == single_commit(original@, updated@, load_view(current), *fence),
{
    match validate_session_id(&original.id) {
        Err(e) => {
            return Err(e);
        },
        Ok(_) => {},
    }
    match validate_session_id(&updated.id) {
        Err(e) => {
            return Err(e);
        },
        Ok(_) => {},
    }
    if original.id != updated.id {
        return Err(invalid_input("single Task snapshots must preserve the session id"));
    }
    if !same_without_tasks(original, updated) {
        return Err(
            invalid_input("single Task update modifies fields outside Task list/generation"),
        );
    }
    let generation = match updated.task_list_version_meta() {
        Some(g) => g,
        None => {
            return Err(invalid_input("single Task update requires a list and generation"));
        },
    };
    if updated.task_list.is_none() {
        return Err(invalid_input("single Task update requires a list and generation"));
    }
    match current {
        Err(e) => Err(e),
        Ok(None) => Ok(None),
        Ok(Some(c)) => {
            if c.authority_identity != original.authority_identity
                || !runtime_task_owned_snapshot_matches(&c, original) {
                Ok(None)
            } else {
                let mut commit = c;
                commit.set_tasks(clone_opt(&updated.task_list), generation);
                match validate_root_for_write(&commit, false, fence) {
                    Err(e) => Err(e),
                    Ok(_) => Ok(Some(commit)),
                }
            }
        },
    }
}

// ------------------------------------------------------------- two-session commit

/// What a paired Task request is answered before anything is read.
pub open spec fn pair_request_check(
    first_original: SessionView,
    first_updated: SessionView,
    second_original: SessionView,
    second_updated: SessionView,
) -> Result<(), ErrorView> {
    if paths::id_check(first_original.id) is Err {
        paths::id_check(first_original.id)
    } else if paths::id_check(first_updated.id) is Err {
        paths::id_check(first_updated.id)
    } else if paths::id_check(second_original.id) is Err {
        paths::id_check(second_original.id)
    } else if paths::id_check(second_updated.id) is Err {
        paths::id_check(second_updated.id)
    } else if first_original.id != first_updated.id || second_original.id != second_updated.id
        || !text::text_less(first_original.id, second_original.id) {
        Err(
            error::plain_error(
                ErrorKind::InvalidInput,
                "paired Task snapshots must preserve ids and be lexically ordered"@,
            ),
        )
    } else if first_original.without_tasks() != first_updated.without_tasks() {
        Err(
            error::plain_error(
                ErrorKind::InvalidInput,
                "first paired Task update modifies fields outside Task list/generation"@,
            ),
        )
    } else if second_original.without_tasks() != second_updated.without_tasks() {
        Err(
            error::plain_error(
                ErrorKind::InvalidInput,
                "second paired Task update modifies fields outside Task list/generation"@,
            ),
        )
    } else if first_updated.task_list is None || first_updated.task_generation() is None
        || !same_tasks(first_updated, second_updated) {
        Err(
            error::plain_error(
                ErrorKind::InvalidInput,
                "paired Task updates must publish identical Task lists/generations"@,
            ),
        )
    } else {
        Ok(())
    }
}

/// Checks a paired Task request before anything is read.
pub fn check_pair_request(
    first_original: &Session,
    first_updated: &Session,
    second_original: &Session,
    second_updated: &Session,
) -> (r: Result<(), StorageError>)
    ensures
        error::plain_view(r) == pair_request_check(
            first_original@,
            first_updated@,
            second_original@,
            second_updated@,
        ),
{
    match validate_session_id(&first_original.id) {
        Err(e) => {
            return Err(e);
        },
        Ok(_) => {},
    }
    match validate_session_id(&first_updated.id) {
        Err(e) => {
            return Err(e);
        },
        Ok(_) => {},
    }
    match validate_session_id(&second_original.id) {
        Err(e) => {
            return Err(e);
        },
        Ok(_) => {},
    }
    match validate_session_id(&second_updated.id) {
        Err(e) => {
            return Err(e);
        },
        Ok(_) => {},
    }
    if first_original.id != first_updated.id || second_original.id != second_updated.id || !less(
        &first_original.id,
        &second_original.id,
    ) {
        return Err(
            invalid_input("paired Task snapshots must preserve ids and be lexically ordered"),
        );
    }
    if !same_without_tasks(first_original, first_updated) {
        return Err(
            invalid_input("first paired Task update modifies fields outside Task list/generation"),
        );
    }
    if !same_without_tasks(second_original, second_updated) {
        return Err(
            invalid_input("second paired Task update modifies fields outside Task list/generation"),
        );
    }
    if first_updated.task_list.is_none() || first_updated.task_list_version_meta().is_none()
        || !runtime_task_owned_snapshot_matches(first_updated, second_updated) {
        return Err(
            invalid_input("paired Task updates must publish identical Task lists/generations"),
        );
    }
    Ok(())
}

/// What a paired commit writes: the undo journal, then the two sidecars.
pub struct PairCommit {
    pub journal: RuntimeTaskTransactionJournal,
    pub first: Session,
    pub second: Session,
}

/// What a [`PairCommit`] holds.
#[verifier::ext_equal]
pub struct PairCommitView {
    pub journal: JournalView,
    pub first: SessionView,
    pub second: SessionView,
}

impl View for PairCommit {
    type V = PairCommitView;

    open spec fn view(&self) -> PairCommitView {
        PairCommitView { journal: self.journal@, first: self.first@, second: self.second@ }
    }
}

/// What a decision on a paired commit gave.
pub open spec fn pair_view(
    r: Result<Option<PairCommit>, StorageError>,
) -> Result<Option<PairCommitView>, ErrorView> {
    match r {
        Ok(Some(p)) => Ok(Some(p@)),
        Ok(None) => Ok(None),
        Err(e) => Err(e@),
    }
}

/// The journal that undoes a commit over two sessions.
pub open spec fn pair_journal(
    transaction_id: Seq<char>,
    first: SessionView,
    second: SessionView,
) -> JournalView {
    JournalView {
        version: RUNTIME_TASK_TRANSACTION_VERSION,
        transaction_id,
        first: UndoView {
            session_id: first.id,
            task_list: first.task_list,
            task_list_version: first.task_generation()->0,
        },
        second: UndoView {
            session_id: second.id,
            task_list: second.task_list,
            task_list_version: second.task_generation()->0,
        },
    }
}

/// What a paired Task request writes, if anything: `current_first` and `current_second` are
/// what loading the two durable control planes gave. Each fence is asked about what would be
/// written of its session.
pub open spec fn pair_commit(
    first_original: SessionView,
    first_updated: SessionView,
    second_original: SessionView,
    second_updated: SessionView,
    current_first: Result<Option<SessionView>, ErrorView>,
    current_second: Result<Option<SessionView>, ErrorView>,
    first_fence: RootFence,
    second_fence: RootFence,
    transaction_id: Seq<char>,
) -> Result<Option<PairCommitView>, ErrorView> {
    let check = pair_request_check(first_original, first_updated, second_original, second_updated);
    if check is Err {
        Err(check->Err_0)
    } else {
        match (current_first, current_second) {
            (Err(e), _) => Err(e),
            (Ok(None), _) => Ok(None),
            (Ok(Some(_)), Err(e)) => Err(e),
            (Ok(Some(_)), Ok(None)) => Ok(None),
            (Ok(Some(a)), Ok(Some(b))) => if a.authority_identity
                != first_original.authority_identity || b.authority_identity
                != second_original.authority_identity || !same_tasks(a, first_original)
                || !same_tasks(b, second_original) {
                Ok(None)
            } else if a.task_generation() is None {
                Err(
                    error::plain_error(
                        ErrorKind::InvalidInput,
                        "first current Task snapshot has no generation"@,
                    ),
                )
            } else if b.task_generation() is None {
                Err(
                    error::plain_error(
                        ErrorKind::InvalidInput,
                        "second current Task snapshot has no generation"@,
                    ),
                )
            } else {
                let first = a.with_tasks(
                    first_updated.task_list,
                    first_updated.task_generation()->0,
                );
                let second = b.with_tasks(
                    second_updated.task_list,
                    second_updated.task_generation()->0,
                );
                match (
                    root_fence::root_fence_check(first, false, first_fence),
                    root_fence::root_fence_check(second, false, second_fence),
                ) {
                    (Err(e), _) => Err(e),
                    (_, Err(e)) => Err(e),
                    (Ok(_), Ok(_)) => Ok(
                        Some(
                            PairCommitView {
                                journal: pair_journal(transaction_id, a, b),
                                first,
                                second,
                            },
                        ),
                    ),
                }
            },
        }
    }
}

/// Decides a paired Task request: what to write, or nothing where the durable Tasks are no
/// longer the expected ones. Everything but the Tasks is taken from the durable sessions.
pub fn save_runtime_task_pair_transaction(
    first_original: &Session,
    first_updated: &Session,
    second_original: &Session,
    second_updated: &Session,
    current_first: Result<Option<Session>, StorageError>,
    current_second: Result<Option<Session>, StorageError>,
    first_fence: &RootFence,
    second_fence: &RootFence,
    transaction_id: String,
) -> (r: Result<Option<PairCommit>, StorageError>)
    ensures
        pair_view(r) == pair_commit(
            first_original@,
            first_updated@,
            second_original@,
            second_updated@,
            load_view(current_first),
            load_view(current_second),
            *first_fence,
            *second_fence,
            transaction_id@,
        ),
{
    match check_pair_request(first_original, first_updated, second_original, second_updated) {
        Err(e) => {
            return Err(e);
        },
        Ok(_) => {},
    }
    let a = match current_first {
        Err(e) => {
            return Err(e);
        },
        Ok(None) => {
            return Ok(None);
        },
        Ok(Some(a)) => a,
    };
    let b = match current_second {
        Err(e) => {
            return Err(e);
        },
        Ok(None) => {
            return Ok(None);
        },
        Ok(Some(b)) => b,
    };
    if a.authority_identity != first_original.authority_identity || b.authority_identity
        != second_original.authority_identity || !runtime_task_owned_snapshot_matches(
        &a,
        first_original,
    ) || !runtime_task_owned_snapshot_matches(&b, second_original) {
        return Ok(None);
    }
    let first_version = match a.task_list_version_meta() {
        Some(v) => v,
        None => {
            return Err(invalid_input("first current Task snapshot has no generation"));
        },
    };
    let second_version = match b.task_list_version_meta() {
        Some(v) => v,
        None => {
            return Err(invalid_input("second current Task snapshot has no generation"));
        },
    };
    let new_first = match first_updated.task_list_version_meta() {
        Some(v) => v,
        None => first_version.clone(),
    };
    let new_second = match second_updated.task_list_version_meta() {
        Some(v) => v,
        None => second_version.clone(),
    };
    let journal = RuntimeTaskTransactionJournal {
        version: RUNTIME_TASK_TRANSACTION_VERSION,
        transaction_id,
        first: TaskControlPlaneUndo {
            session_id: a.id.clone(),
            task_list: clone_opt(&a.task_list),
            task_list_version: first_version,
        },
        second: TaskControlPlaneUndo {
            session_id: b.id.clone(),
            task_list: clone_opt(&b.task_list),
            task_list_version: second_version,
        },
    };
    let mut first = a;
    first.set_tasks(clone_opt(&first_updated.task_list), new_first);
    let mut second = b;
    second.set_tasks(clone_opt(&second_updated.task_list), new_second);
    match validate_root_for_write(&first, false, first_fence) {
        Err(e) => {
            return Err(e);
        },
        Ok(_) => {},
    }
    match validate_root_for_write(&second, false, second_fence) {
        Err(e) => {
            return Err(e);
        },
        Ok(_) => {},
    }
    Ok(Some(PairCommit { journal, first, second }))
}

/// The session that undoing a transaction writes.
pub open spec fn undone(current: SessionView, undo: UndoView) -> SessionView {
    current.with_tasks(undo.task_list, undo.task_list_version)
}

/// Puts the Tasks of an undo record back into a session.
pub fn apply_undo(current: &mut Session, undo: &TaskControlPlaneUndo)
    ensures
        final(current)@ == undone(old(current)@, undo@),
{
    current.set_tasks(clone_opt(&undo.task_list), undo.task_list_version.clone());
}

// ------------------------------------------------------------------------- laws

/// What a paired commit writes differs from the durable sessions in their Tasks alone, both
/// sessions get the same Tasks, and the journal puts the old Tasks back: after undoing it, each
/// session holds the Tasks it held before and nothing else has changed.
pub proof fn pair_commit_is_narrow_and_undoable(
    first_original: SessionView,
    first_updated: SessionView,
    second_original: SessionView,
    second_updated: SessionView,
    a: SessionView,
    b: SessionView,
    first_fence: RootFence,
    second_fence: RootFence,
    transaction_id: Seq<char>,
    p: PairCommitView,
)
    requires
        pair_commit(
            first_original,
            first_updated,
            second_original,
            second_updated,
            Ok(Some(a)),
            Ok(Some(b)),
            first_fence,
            second_fence,
            transaction_id,
        ) == Ok::<Option<PairCommitView>, ErrorView>(Some(p)),
    ensures
        p.first.without_tasks() == a.without_tasks(),
        p.second.without_tasks() == b.without_tasks(),
        same_tasks(p.first, p.second),
        same_tasks(p.first, first_updated),
        same_tasks(undone(p.first, p.journal.first), a),
        same_tasks(undone(p.second, p.journal.second), b),
        undone(p.first, p.journal.first).without_tasks() == a.without_tasks(),
        undone(p.second, p.journal.second).without_tasks() == b.without_tasks(),
{
    crate::session::setting_tasks_changes_only_tasks(
        a,
        first_updated.task_list,
        first_updated.task_generation()->0,
    );
    crate::session::setting_tasks_changes_only_tasks(
        b,
        second_updated.task_list,
        second_updated.task_generation()->0,
    );
    crate::session::setting_tasks_changes_only_tasks(
        p.first,
        p.journal.first.task_list,
        p.journal.first.task_list_version,
    );
    crate::session::setting_tasks_changes_only_tasks(
        p.second,
        p.journal.second.task_list,
        p.journal.second.task_list_version,
    );
}

/// A save that is let through keeps the durable Tasks or brings a strictly newer generation:
/// where both generations are numbers and the Tasks differ, the number grows.
pub proof fn accepted_saves_never_take_tasks_back(incoming: SessionView, durable: SessionView)
    requires
        !task_write_regresses(incoming, durable),
        durable.task_generation() is Some,
    ensures
        same_tasks(incoming, durable) || (incoming.task_generation() is Some && text::parsed_u64(
            incoming.task_generation()->0,
        ) is Some && text::parsed_u64(durable.task_generation()->0) is Some && text::parsed_u64(
            incoming.task_generation()->0,
        )->0 > text::parsed_u64(durable.task_generation()->0)->0),
{
}

/// Along a chain of saves that are let through, no later save may bring back the Tasks of an
/// earlier one once a newer generation is durable.
pub proof fn a_superseded_generation_stays_superseded(
    older: SessionView,
    middle: SessionView,
    newest: SessionView,
)
    requires
        older.task_generation() is Some,
        text::parsed_u64(older.task_generation()->0) is Some,
        !task_write_regresses(middle, older),
        !task_write_regresses(newest, middle),
        !same_tasks(middle, older),
        middle.task_generation() is Some,
    ensures
        task_write_regresses(older, newest) || same_tasks(older, newest),
        !same_tasks(older, newest),
{
}

/// The journal that a paired commit writes under its own name passes the check on reading,
/// in each of the three states of its marker.
pub proof fn written_journal_is_accepted(
    first_original: SessionView,
    first_updated: SessionView,
    second_original: SessionView,
    second_updated: SessionView,
    a: SessionView,
    b: SessionView,
    first_fence: RootFence,
    second_fence: RootFence,
    transaction_id: Seq<char>,
    p: PairCommitView,
    ext: Seq<char>,
)
    requires
        pair_commit(
            first_original,
            first_updated,
            second_original,
            second_updated,
            Ok(Some(a)),
            Ok(Some(b)),
            first_fence,
            second_fence,
            transaction_id,
        ) == Ok::<Option<PairCommitView>, ErrorView>(Some(p)),
        a.id == first_original.id,
        b.id == second_original.id,
        crate::outside::uuid_text(transaction_id),
        transaction_id.len() > 0,
        outside::parsed_uuid(transaction_id) is Ok,
        ext == "json"@ || ext == "committing"@ || ext == "committed"@,
    ensures
        task_journal_check(
            transaction_id + "."@ + ext,
            p.journal,
            outside::parsed_uuid(stem_text(transaction_id + "."@ + ext)),
        ) is Ok,
        marker_state(paths::extension_of(transaction_id + "."@ + ext)) is Some,
{
    reveal_strlit("json");
    reveal_strlit("committing");
    reveal_strlit("committed");
    assert(!transaction_id.contains('/'));
    assert(!ext.contains('/') && !ext.contains('.'));
    crate::paths::name_splits_at_its_dot(transaction_id, ext);
}

/// A Task commit writes nothing past the fence: what is written of one session or of two is what
/// the fence lets through, and where it refuses either of two nothing is written of both.
pub proof fn task_commits_stay_behind_the_fence(
    original: SessionView,
    updated: SessionView,
    current: Result<Option<SessionView>, ErrorView>,
    fence: RootFence,
    other_original: SessionView,
    other_updated: SessionView,
    other_current: Result<Option<SessionView>, ErrorView>,
    other_fence: RootFence,
    transaction_id: Seq<char>,
)
    ensures
        ({
            let r = single_commit(original, updated, current, fence);
            r is Ok && r->Ok_0 is Some ==> root_fence::root_fence_check(r->Ok_0->0, false, fence)
                is Ok
        }),
        ({
            let r = pair_commit(
                original,
                updated,
                other_original,
                other_updated,
                current,
                other_current,
                fence,
                other_fence,
                transaction_id,
            );
            r is Ok && r->Ok_0 is Some ==> root_fence::root_fence_check(
                r->Ok_0->0.first,
                false,
                fence,
            ) is Ok && root_fence::root_fence_check(r->Ok_0->0.second, false, other_fence) is Ok
        }),
{
}

/// A Task update of one session is committed exactly where the request is well formed, the durable
/// session holds the Tasks and the authority that the caller has seen, and the fence is open. What
/// is written then holds the list and the generation of the update, and differs from the durable
/// session in its Tasks alone.
pub proof fn a_task_update_commits_its_tasks(
    original: SessionView,
    updated: SessionView,
    current: SessionView,
    fence: RootFence,
)
    ensures
        ({
            let r = single_commit(original, updated, Ok(Some(current)), fence);
            let asked = paths::id_check(original.id) is Ok && original.id == updated.id
                && original.without_tasks() == updated.without_tasks() && updated.task_list is Some
                && updated.task_generation() is Some;
            let seen = current.authority_identity == original.authority_identity
                && current.task_list == original.task_list && current.task_generation()
                == original.task_generation();
            let open = root_fence::root_fence_check(
                current.with_tasks(updated.task_list, updated.task_generation()->0),
                false,
                fence,
            ) is Ok;
            &&& r is Ok && r->Ok_0 is Some <==> asked && seen && open
            &&& asked && !seen ==> r == Ok::<Option<SessionView>, ErrorView>(None)
            &&& !asked || (seen && !open) ==> r is Err
            &&& r is Ok && r->Ok_0 is Some ==> {
                let w = r->Ok_0->0;
                &&& w.task_list == updated.task_list
                &&& w.task_generation() == updated.task_generation()
                &&& same_tasks(w, updated)
                &&& w.without_tasks() == current.without_tasks()
            }
        }),
        single_commit(original, updated, Ok(None), fence) is Ok ==> single_commit(
            original,
            updated,
            Ok(None),
            fence,
        )->Ok_0 is None,
{
    if updated.task_generation() is Some {
        crate::session::setting_tasks_changes_only_tasks(
            current,
            updated.task_list,
            updated.task_generation()->0,
        );
    }
}

/// Two updates of a Task list from one durable state: once the first is committed, the second
/// finds other Tasks than it has seen and writes nothing.
pub proof fn one_of_two_task_updates_wins(
    original: SessionView,
    first: SessionView,
    second: SessionView,
    current: SessionView,
    fence: RootFence,
    later_fence: RootFence,
)
    requires
        single_commit(original, first, Ok(Some(current)), fence) is Ok,
        single_commit(original, first, Ok(Some(current)), fence)->Ok_0 is Some,
        !same_tasks(original, first),
    ensures
        ({
            let w = single_commit(original, first, Ok(Some(current)), fence)->Ok_0->0;
            let r = single_commit(original, second, Ok(Some(w)), later_fence);
            r is Err || r == Ok::<Option<SessionView>, ErrorView>(None)
        }),
{
    a_task_update_commits_its_tasks(original, first, current, fence);
    let w = single_commit(original, first, Ok(Some(current)), fence)->Ok_0->0;
    a_task_update_commits_its_tasks(original, second, w, later_fence);
}

/// Two sessions hold the same Tasks exactly where list and generation agree.
pub proof fn tasks_are_a_list_and_a_generation(a: SessionView, b: SessionView)
    ensures
        same_tasks(a, b) <==> a.task_list == b.task_list && a.task_generation()
            == b.task_generation(),
{
}

/// A paired request is taken exactly where each update keeps its session's id and everything but
/// its Tasks, the ids are in order, and both updates bring the same list and generation.
pub proof fn a_pair_request_keeps_all_but_tasks(
    first_original: SessionView,
    first_updated: SessionView,
    second_original: SessionView,
    second_updated: SessionView,
)
    ensures
        pair_request_check(first_original, first_updated, second_original, second_updated) is Ok
            <==> {
            &&& paths::id_check(first_original.id) is Ok && paths::id_check(second_original.id) is Ok
            &&& first_original.id == first_updated.id && second_original.id == second_updated.id
            &&& text::text_less(first_original.id, second_original.id)
            &&& first_original.without_tasks() == first_updated.without_tasks()
            &&& second_original.without_tasks() == second_updated.without_tasks()
            &&& first_updated.task_list is Some && first_updated.task_generation() is Some
            &&& first_updated.task_list == second_updated.task_list
            &&& first_updated.task_generation() == second_updated.task_generation()
        },
{
}

/// A paired update is committed wherever it is asked for well, both durable sessions hold the
/// Tasks and authorities that the caller has seen, each with a generation, and both fences are
/// open; it is not where either holds other Tasks. The journal names both sessions with the Tasks
/// that they held.
pub proof fn a_pair_update_commits_its_tasks(
    first_original: SessionView,
    first_updated: SessionView,
    second_original: SessionView,
    second_updated: SessionView,
    a: SessionView,
    b: SessionView,
    first_fence: RootFence,
    second_fence: RootFence,
    transaction_id: Seq<char>,
)
    requires
        pair_request_check(first_original, first_updated, second_original, second_updated) is Ok,
    ensures
        ({
            let r = pair_commit(
                first_original,
                first_updated,
                second_original,
                second_updated,
                Ok(Some(a)),
                Ok(Some(b)),
                first_fence,
                second_fence,
                transaction_id,
            );
            let seen = a.authority_identity == first_original.authority_identity
                && b.authority_identity == second_original.authority_identity && a.task_list
                == first_original.task_list && b.task_list == second_original.task_list
                && a.task_generation() == first_original.task_generation() && b.task_generation()
                == second_original.task_generation();
            let open = root_fence::root_fence_check(
                a.with_tasks(first_updated.task_list, first_updated.task_generation()->0),
                false,
                first_fence,
            ) is Ok && root_fence::root_fence_check(
                b.with_tasks(first_updated.task_list, first_updated.task_generation()->0),
                false,
                second_fence,
            ) is Ok;
            &&& r is Ok && r->Ok_0 is Some <==> seen && open && a.task_generation() is Some
                && b.task_generation() is Some
            &&& !seen ==> r == Ok::<Option<PairCommitView>, ErrorView>(None)
            &&& r is Ok && r->Ok_0 is Some ==> {
                let p = r->Ok_0->0;
                &&& p.first.task_list == first_updated.task_list
                &&& p.first.task_generation() == first_updated.task_generation()
                &&& p.second.task_list == first_updated.task_list
                &&& p.second.task_generation() == first_updated.task_generation()
                &&& p.first.without_tasks() == a.without_tasks()
                &&& p.second.without_tasks() == b.without_tasks()
                &&& p.journal.transaction_id == transaction_id && p.journal.version == 1
                &&& p.journal.first.session_id == a.id && p.journal.second.session_id == b.id
                &&& p.journal.first.task_list == a.task_list
                &&& p.journal.second.task_list == b.task_list
                &&& Some(p.journal.first.task_list_version) == a.task_generation()
                &&& Some(p.journal.second.task_list_version) == b.task_generation()
            }
        }),
{
    crate::session::setting_tasks_changes_only_tasks(
        a,
        first_updated.task_list,
        first_updated.task_generation()->0,
    );
    crate::session::setting_tasks_changes_only_tasks(
        b,
        second_updated.task_list,
        second_updated.task_generation()->0,
    );
}

/// Undoing puts the recorded list and generation back and touches nothing else.
pub proof fn undoing_restores_the_record(current: SessionView, undo: UndoView)
    ensures
        undone(current, undo).task_list == undo.task_list,
        undone(current, undo).task_generation() == Some(undo.task_list_version),
        undone(current, undo).without_tasks() == current.without_tasks(),
{
    crate::session::setting_tasks_changes_only_tasks(
        current,
        undo.task_list,
        undo.task_list_version,
    );
}

/// An ordinary save takes durable Tasks back exactly where it brings other Tasks than a durable
/// session with a generation holds, without a generation that is a greater number.
pub proof fn what_takes_tasks_back(incoming: SessionView, durable: SessionView)
    ensures
        incoming.task_list == durable.task_list && incoming.task_generation()
            == durable.task_generation() ==> !task_write_regresses(incoming, durable),
        durable.task_generation() is None ==> !task_write_regresses(incoming, durable),
        durable.task_generation() is Some && incoming.task_generation() is None
            ==> task_write_regresses(incoming, durable),
        durable.task_generation() is Some && incoming.task_generation() is Some && !(
        incoming.task_list == durable.task_list && incoming.task_generation()
            == durable.task_generation()) ==> (task_write_regresses(incoming, durable) <==> !(
        text::parsed_u64(incoming.task_generation()->0) is Some && text::parsed_u64(
            durable.task_generation()->0,
        ) is Some && text::parsed_u64(incoming.task_generation()->0)->0 > text::parsed_u64(
            durable.task_generation()->0,
        )->0)),
        task_regression_check(incoming, Ok(Some(durable))) is Err <==> task_write_regresses(
            incoming,
            durable,
        ),
        task_regression_check(incoming, Ok(Some(durable))) is Err ==> task_regression_check(
            incoming,
            Ok(Some(durable)),
        )->Err_0.kind == ErrorKind::WouldBlock,
        task_regression_check(incoming, Ok(None)) is Ok,
{
}

/// The three extensions of a journal stand for its three states, and no other name is a journal's.
pub proof fn three_extensions_mark_a_journal(ext: Seq<char>)
    ensures
        marker_state(Some("json"@)) == Some(RuntimeTaskJournalMarkerState::Prepared),
        marker_state(Some("committing"@)) == Some(RuntimeTaskJournalMarkerState::Committing),
        marker_state(Some("committed"@)) == Some(RuntimeTaskJournalMarkerState::Committed),
        ext != "json"@ && ext != "committing"@ && ext != "committed"@ ==> marker_state(Some(ext))
            is None,
        marker_state(None) is None,
{
    reveal_strlit("json");
    reveal_strlit("committing");
    reveal_strlit("committed");
    assert("json"@.len() == 4 && "committing"@.len() == 10 && "committed"@.len() == 9);
}

/// The journals of a listing are its regular files with the extension of a journal, each as often
/// as it is listed, and nothing else.
pub proof fn every_journal_is_listed(entries: Seq<DirEntry>, name: String)
    ensures
        journal_names_of(entries).contains(name) <==> exists|i: int|
            0 <= i < entries.len() && (#[trigger] entries[i]).is_file && entries[i].name == name
                && marker_state(paths::extension_of(name@)) is Some,
        journal_names_of(entries).len() <= entries.len(),
    decreases entries.len(),
{
    if entries.len() > 0 {
        let head = entries.drop_last();
        every_journal_is_listed(head, name);
        let names = journal_names_of(entries);
        let before = journal_names_of(head);
        if before.contains(name) {
            let i = choose|i: int|
                0 <= i < head.len() && (#[trigger] head[i]).is_file && head[i].name == name
                    && marker_state(paths::extension_of(name@)) is Some;
            assert(entries[i] == head[i]);
            let j = choose|j: int| 0 <= j < before.len() && before[j] == name;
            assert(names[j] == name);
        }
        if names.contains(name) && !before.contains(name) {
            let j = choose|j: int| 0 <= j < names.len() && names[j] == name;
            if j < before.len() {
                assert(before[j] == name);
            }
            assert(entries[entries.len() - 1].name == name);
        }
        if exists|i: int|
            0 <= i < entries.len() && (#[trigger] entries[i]).is_file && entries[i].name == name
                && marker_state(paths::extension_of(name@)) is Some {
            let i = choose|i: int|
                0 <= i < entries.len() && (#[trigger] entries[i]).is_file && entries[i].name == name
                    && marker_state(paths::extension_of(name@)) is Some;
            if i < head.len() {
                assert(head[i] == entries[i]);
            } else {
                assert(names[before.len() as int] == name);
            }
        }
    }
}

/// A journal is taken exactly where it is of the known version, is named by its own id, which is a
/// UUID, and names two valid sessions in order.
pub proof fn what_makes_a_journal(path: Seq<char>, j: JournalView, parsed: Result<u128, Seq<char>>)
    ensures
        task_journal_check(path, j, parsed) is Ok <==> j.version == 1 && parsed is Ok
            && paths::stem_of(path) == Some(j.transaction_id) && paths::id_check(j.first.session_id)
            is Ok && paths::id_check(j.second.session_id) is Ok && text::text_less(
            j.first.session_id,
            j.second.session_id,
        ),
{
}

/// What is said of these values is said of their own fields: none is left out or exchanged.
pub proof fn nothing_is_left_unseen(a: TaskControlPlaneUndo, b: RuntimeTaskTransactionJournal, c: PairCommit)
    ensures
        a@.task_list is Some <==> a.task_list is Some,
        a.task_list is Some ==> a@.task_list->0 == a.task_list->0@,
        a@.session_id == a.session_id@ && a@.task_list_version == a.task_list_version@,
        b@.version == b.version && b@.transaction_id == b.transaction_id@,
        b@.first == b.first@ && b@.second == b.second@,
        c@.journal == c.journal@ && c@.first == c.first@,
        c@.second == c.second@,
{
}

/// What was loaded, planned or parsed is seen as it is: a value, nothing, or a failure.
pub proof fn loads_are_seen_whole(s: Session, p: PairCommit, n: u128, t: String, e: StorageError)
    ensures
        load_view(Ok(Some(s))) == Ok::<Option<SessionView>, ErrorView>(Some(s@)),
        load_view(Ok(None)) == Ok::<Option<SessionView>, ErrorView>(None),
        load_view(Err(e)) == Err::<Option<SessionView>, ErrorView>(e@),
        pair_view(Ok(Some(p))) == Ok::<Option<PairCommitView>, ErrorView>(Some(p@)),
        pair_view(Ok(None)) == Ok::<Option<PairCommitView>, ErrorView>(None),
        pair_view(Err(e)) == Err::<Option<PairCommitView>, ErrorView>(e@),
        parse_view(Ok(n)) == Ok::<u128, Seq<char>>(n),
        parse_view(Err(t)) == Err::<u128, Seq<char>>(t@),
{
}

/// A request about Tasks that is wrong in itself is refused as invalid input: ids that differ, changes
/// beyond the Tasks, or Tasks without a list and a generation. A failure to load or of the fence is
/// answered as it is, and no refusal of the request is a conflict of authority.
pub proof fn how_a_task_update_is_refused(
    original: SessionView,
    updated: SessionView,
    current: Result<Option<SessionView>, ErrorView>,
    fence: RootFence,
)
    requires
        paths::id_check(original.id) is Ok,
        paths::id_check(updated.id) is Ok,
    ensures
        ({
            let r = single_commit(original, updated, current, fence);
            let wrong = original.id != updated.id || original.without_tasks()
                != updated.without_tasks() || updated.task_list is None || updated.task_generation()
                is None;
            &&& wrong ==> r is Err && r->Err_0.kind == ErrorKind::InvalidInput
                && !r->Err_0.authority_conflict
            &&& !wrong && current is Err ==> r is Err && r->Err_0 == current->Err_0
            &&& !wrong && current is Ok && r is Err ==> current->Ok_0 is Some && ({
                let c = current->Ok_0->0.with_tasks(
                    updated.task_list,
                    updated.task_generation()->0,
                );
                root_fence::root_fence_check(c, false, fence) is Err && r->Err_0
                    == root_fence::root_fence_check(c, false, fence)->Err_0
            })
        }),
{
}

/// A request about a pair is refused as invalid input wherever it is wrong in itself, or where one of
/// the sessions that it would change has no generation yet; a failure to load either session is
/// answered as it is, the first before the second.
pub proof fn how_a_pair_update_is_refused(
    first_original: SessionView,
    first_updated: SessionView,
    second_original: SessionView,
    second_updated: SessionView,
    a: SessionView,
    b: SessionView,
    e: ErrorView,
    current: Result<Option<SessionView>, ErrorView>,
    first_fence: RootFence,
    second_fence: RootFence,
    transaction_id: Seq<char>,
)
    requires
        paths::id_check(first_original.id) is Ok && paths::id_check(first_updated.id) is Ok,
        paths::id_check(second_original.id) is Ok && paths::id_check(second_updated.id) is Ok,
    ensures
        ({
            let check = pair_request_check(
                first_original,
                first_updated,
                second_original,
                second_updated,
            );
            let ask = |x: Result<Option<SessionView>, ErrorView>, y: Result<Option<SessionView>, ErrorView>|
                pair_commit(
                    first_original,
                    first_updated,
                    second_original,
                    second_updated,
                    x,
                    y,
                    first_fence,
                    second_fence,
                    transaction_id,
                );
            &&& check is Err ==> check->Err_0.kind == ErrorKind::InvalidInput
                && !check->Err_0.authority_conflict
            &&& check is Err ==> ask(current, current) is Err && ask(current, current)->Err_0
                == check->Err_0
            &&& check is Ok ==> ask(Err(e), current) == Err::<Option<PairCommitView>, ErrorView>(e)
            &&& check is Ok ==> ask(Ok(Some(a)), Err(e)) == Err::<Option<PairCommitView>, ErrorView>(e)
            &&& check is Ok ==> ask(Ok(None), current) == Ok::<Option<PairCommitView>, ErrorView>(None)
            &&& check is Ok ==> ask(Ok(Some(a)), Ok(None)) == Ok::<Option<PairCommitView>, ErrorView>(
                None,
            )
            &&& check is Ok && a.authority_identity == first_original.authority_identity
                && b.authority_identity == second_original.authority_identity && same_tasks(
                a,
                first_original,
            ) && same_tasks(b, second_original) && (a.task_generation() is None
                || b.task_generation() is None) ==> ask(Ok(Some(a)), Ok(Some(b))) is Err && ask(
                Ok(Some(a)),
                Ok(Some(b)),
            )->Err_0.kind == ErrorKind::InvalidInput
        }),
{
}

/// A journal that is not one is refused as invalid data, but for an id that can be no session's; a
/// save that would take Tasks back is refused as one to be tried again, naming the session, and a
/// failure to load is answered as it is.
pub proof fn how_journals_and_saves_are_refused(
    path: Seq<char>,
    j: JournalView,
    parsed: Result<u128, Seq<char>>,
    s: SessionView,
    durable: SessionView,
    e: ErrorView,
)
    ensures
        task_journal_check(path, j, parsed) is Err && paths::id_check(j.first.session_id) is Ok
            && paths::id_check(j.second.session_id) is Ok ==> task_journal_check(
            path,
            j,
            parsed,
        )->Err_0.kind == ErrorKind::InvalidData,
        task_regression_check(s, Err(e)) == Err::<(), ErrorView>(e),
        task_regression_check(s, Ok(None)) == Ok::<(), ErrorView>(()),
        task_regression_check(s, Ok(Some(durable))) is Err <==> task_write_regresses(s, durable),
        task_regression_check(s, Ok(Some(durable))) is Err ==> ({
            let r = task_regression_check(s, Ok(Some(durable)))->Err_0;
            r.kind == ErrorKind::WouldBlock && !r.authority_conflict && r.message
                == TASK_CONTROL_PLANE_CONFLICT_PREFIX@ + s.id
        }),
{
}

} // verus!
