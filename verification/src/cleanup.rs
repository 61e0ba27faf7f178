//! Removing sessions: which ones a cleanup takes, what a deletion removes, what clearing keeps.
use crate::error::{other_io_error, ErrorKind, ErrorView, StorageError};
use crate::error;
use crate::index::{SessionIndexEntry, SessionIndexEntryView, SessionsIndex, SessionsIndexView};
use crate::index;
use crate::paths::SEARCH_INDEX_REVISION_FILE;
use crate::session::{has_member, Message, MessageView, Role, Session, SessionKind, SessionView};
use crate::session;
use crate::text::{join3, same_text};
use crate::textset::insert_text;
use crate::textset;
use crate::time::Timestamp;
use crate::task_journal;
use vstd::prelude::*;

verus! {

/// Which sessions a cleanup takes.
#[derive(Debug, Clone, Copy, PartialEq, Eq, Structural)]
pub enum CleanupMode {
    All,
    Empty,
    Children,
}

/// What a cleanup removed.
#[derive(Debug, Clone)]
pub struct CleanupResult {
    pub deleted_count: usize,
    pub deleted_session_ids: Vec<String>,
}

/// What a cleanup removes: the roots, each with its tree, and children of other roots.
pub struct CleanupPlan {
    pub roots: Vec<String>,
    pub children: Vec<String>,
    pub result: CleanupResult,
}

// ------------------------------------------------------------------------- the rules

/// Whether a session has a pinned child.
pub open spec fn has_pinned_child(entries: Seq<SessionIndexEntryView>, id: Seq<char>) -> bool {
    exists|i: int|
        0 <= i < entries.len() && (#[trigger] entries[i]).kind == SessionKind::Child
            && entries[i].pinned && entries[i].parent_session_id == Some(id)
}

/// Whether a cleanup has to keep an entry.
pub open spec fn protected(
    entries: Seq<SessionIndexEntryView>,
    e: SessionIndexEntryView,
    keep_pinned: bool,
) -> bool {
    keep_pinned && (e.pinned || (e.kind == SessionKind::Root && has_pinned_child(entries, e.id)))
}

/// Whether a cleanup takes a root.
pub open spec fn root_goes(
    entries: Seq<SessionIndexEntryView>,
    e: SessionIndexEntryView,
    mode: CleanupMode,
    keep_pinned: bool,
) -> bool {
    &&& mode != CleanupMode::Children
    &&& e.kind == SessionKind::Root
    &&& !protected(entries, e, keep_pinned)
    &&& mode == CleanupMode::Empty ==> e.message_count <= 1
}

/// The roots that a cleanup takes.
pub open spec fn roots_going(
    entries: Seq<SessionIndexEntryView>,
    mode: CleanupMode,
    keep_pinned: bool,
) -> Set<Seq<char>> {
    Set::new(
        |id: Seq<char>|
            exists|i: int|
                0 <= i < entries.len() && (#[trigger] entries[i]).id == id && root_goes(
                    entries,
                    entries[i],
                    mode,
                    keep_pinned,
                ),
    )
}

/// Whether a cleanup takes a child by itself.
pub open spec fn child_goes(
    entries: Seq<SessionIndexEntryView>,
    e: SessionIndexEntryView,
    mode: CleanupMode,
    keep_pinned: bool,
) -> bool {
    &&& e.kind == SessionKind::Child
    &&& !protected(entries, e, keep_pinned)
    &&& mode != CleanupMode::Children ==> !roots_going(entries, mode, keep_pinned).contains(
        e.root_session_id,
    )
    &&& mode == CleanupMode::Empty ==> e.message_count <= 1
}

/// The children that a cleanup takes by themselves.
pub open spec fn children_going(
    entries: Seq<SessionIndexEntryView>,
    mode: CleanupMode,
    keep_pinned: bool,
) -> Set<Seq<char>> {
    Set::new(
        |id: Seq<char>|
            exists|i: int|
                0 <= i < entries.len() && (#[trigger] entries[i]).id == id && child_goes(
                    entries,
                    entries[i],
                    mode,
                    keep_pinned,
                ),
    )
}

/// The sessions that a cleanup removes: those children, and all that belong to those roots.
pub open spec fn sessions_going(
    entries: Seq<SessionIndexEntryView>,
    mode: CleanupMode,
    keep_pinned: bool,
) -> Set<Seq<char>> {
    Set::new(
        |id: Seq<char>|
            children_going(entries, mode, keep_pinned).contains(id) || exists|i: int|
                0 <= i < entries.len() && (#[trigger] entries[i]).id == id && roots_going(
                    entries,
                    mode,
                    keep_pinned,
                ).contains(entries[i].root_session_id),
    )
}

fn pinned_child(index: &SessionsIndex, id: &str) -> (r: bool)
    ensures
        r == has_pinned_child(index::values(index.sessions), id@),
{
    let n: usize = index.sessions.len();
    let mut i: usize = 0;
    let ghost all = index::values(index.sessions);
    while i < n
        invariant
            i <= n,
            n == index.sessions.pairs().len(),
            all == index::values(index.sessions),
            forall|j: int|
                0 <= j < i ==> !((#[trigger] all[j]).kind == SessionKind::Child && all[j].pinned
                    && all[j].parent_session_id == Some(id@)),
        decreases n - i,
    {
        let e = index.sessions.value_at(i);
        let mine = match &e.parent_session_id {
            Some(p) => same_text(p, id),
            None => false,
        };
        assert(all[i as int] == e@);
        if e.kind == SessionKind::Child && e.pinned && mine {
            return true;
        }
        i = i + 1;
    }
    false
}

fn is_protected(index: &SessionsIndex, e: &SessionIndexEntry, keep_pinned: bool) -> (r: bool)
    ensures
        r == protected(index::values(index.sessions), e@, keep_pinned),
{
    if !keep_pinned {
        return false;
    }
    e.pinned || (e.kind == SessionKind::Root && pinned_child(index, &e.id))
}

/// Decides what a cleanup removes, by the index alone.
pub fn cleanup(index: &SessionsIndex, mode: CleanupMode, keep_pinned: bool) -> (r: CleanupPlan)
    ensures
        textset::ascending(r.roots@),
        textset::text_set(r.roots@) == roots_going(index::values(index.sessions), mode, keep_pinned),
        textset::ascending(r.children@),
        textset::text_set(r.children@) == children_going(index::values(index.sessions), mode, keep_pinned),
        textset::ascending(r.result.deleted_session_ids@),
        textset::text_set(r.result.deleted_session_ids@) == sessions_going(
            index::values(index.sessions),
            mode,
            keep_pinned,
        ),
        r.result.deleted_count == r.result.deleted_session_ids@.len(),
{
    let n: usize = index.sessions.len();
    let ghost all = index::values(index.sessions);
    let mut roots: Vec<String> = Vec::new();
    let mut i: usize = 0;
    while i < n
        invariant
            i <= n,
            n == index.sessions.pairs().len(),
            all == index::values(index.sessions),
            textset::ascending(roots@),
            forall|id: Seq<char>| #[trigger]
                textset::text_set(roots@).contains(id) <==> exists|j: int|
                    0 <= j < i && (#[trigger] all[j]).id == id && root_goes(
                        all,
                        all[j],
                        mode,
                        keep_pinned,
                    ),
        decreases n - i,
    {
        let e = index.sessions.value_at(i);
        assert(all[i as int] == e@);
        let ghost before = roots@;
        if mode != CleanupMode::Children && e.kind == SessionKind::Root && !is_protected(
            index,
            e,
            keep_pinned,
        ) && !(mode == CleanupMode::Empty && e.message_count > 1) {
            insert_text(&mut roots, &e.id);
            assert(root_goes(all, all[i as int], mode, keep_pinned));
        } else {
            assert(!root_goes(all, all[i as int], mode, keep_pinned));
        }
        i = i + 1;
    }
    assert(textset::text_set(roots@) =~= roots_going(all, mode, keep_pinned));
    let mut children: Vec<String> = Vec::new();
    let mut i: usize = 0;
    while i < n
        invariant
            i <= n,
            n == index.sessions.pairs().len(),
            all == index::values(index.sessions),
            textset::text_set(roots@) == roots_going(all, mode, keep_pinned),
            textset::ascending(children@),
            forall|id: Seq<char>| #[trigger]
                textset::text_set(children@).contains(id) <==> exists|j: int|
                    0 <= j < i && (#[trigger] all[j]).id == id && child_goes(
                        all,
                        all[j],
                        mode,
                        keep_pinned,
                    ),
        decreases n - i,
    {
        let e = index.sessions.value_at(i);
        assert(all[i as int] == e@);
        if e.kind == SessionKind::Child && !(mode != CleanupMode::Children && has_member(
            &roots,
            &e.root_session_id,
        )) && !is_protected(index, e, keep_pinned) && !(mode == CleanupMode::Empty
            && e.message_count > 1) {
            insert_text(&mut children, &e.id);
            assert(child_goes(all, all[i as int], mode, keep_pinned));
        } else {
            assert(!child_goes(all, all[i as int], mode, keep_pinned));
        }
        i = i + 1;
    }
    assert(textset::text_set(children@) =~= children_going(all, mode, keep_pinned));
    let mut deleted: Vec<String> = crate::session::clone_texts(&children);
    let mut i: usize = 0;
    while i < n
        invariant
            i <= n,
            n == index.sessions.pairs().len(),
            all == index::values(index.sessions),
            textset::text_set(roots@) == roots_going(all, mode, keep_pinned),
            textset::ascending(deleted@),
            forall|id: Seq<char>| #[trigger]
                textset::text_set(deleted@).contains(id) <==> (children_going(
                    all,
                    mode,
                    keep_pinned,
                ).contains(id) || exists|j: int|
                    0 <= j < i && (#[trigger] all[j]).id == id && roots_going(
                        all,
                        mode,
                        keep_pinned,
                    ).contains(all[j].root_session_id)),
        decreases n - i,
    {
        let e = index.sessions.value_at(i);
        assert(all[i as int] == e@);
        if has_member(&roots, &e.root_session_id) {
            insert_text(&mut deleted, &e.id);
        }
        i = i + 1;
    }
    assert(textset::text_set(deleted@) =~= sessions_going(all, mode, keep_pinned));
    CleanupPlan {
        roots,
        children,
        result: CleanupResult { deleted_count: deleted.len(), deleted_session_ids: deleted },
    }
}

// ---------------------------------------------------------------------------- deleting

/// One session that leaves the index and the search index.
pub struct Removal {
    pub session_id: String,
    /// Where its search revision stood, relative to the home directory.
    pub revision_path: String,
}

/// What a [`Removal`] holds.
#[verifier::ext_equal]
pub struct RemovalView {
    pub session_id: Seq<char>,
    pub revision_path: Seq<char>,
}

impl View for Removal {
    type V = RemovalView;

    open spec fn view(&self) -> RemovalView {
        RemovalView { session_id: self.session_id@, revision_path: self.revision_path@ }
    }
}

/// What a deletion removes.
pub struct DeletePlan {
    /// The directory that goes, relative to the home directory.
    pub directory: String,
    pub removals: Vec<Removal>,
}

/// What a [`DeletePlan`] holds.
#[verifier::ext_equal]
pub struct DeletePlanView {
    pub directory: Seq<char>,
    pub removals: Seq<RemovalView>,
}

impl View for DeletePlan {
    type V = DeletePlanView;

    open spec fn view(&self) -> DeletePlanView {
        DeletePlanView { directory: self.directory@, removals: session::views(self.removals@) }
    }
}

/// Where the search revision of a session stands, relative to the home directory.
pub open spec fn revision_path(rel_path: Seq<char>) -> Seq<char> {
    rel_path + "/"@ + SEARCH_INDEX_REVISION_FILE@
}

/// The removal of one entry.
pub open spec fn removal_of(e: SessionIndexEntryView) -> RemovalView {
    RemovalView { session_id: e.id, revision_path: revision_path(e.rel_path) }
}

/// The removals of all that belong to a root, in the order of the index.
pub open spec fn tree_removals(entries: Seq<SessionIndexEntryView>, root: Seq<char>) -> Seq<
    RemovalView,
>
    decreases entries.len(),
{
    if entries.len() == 0 {
        Seq::empty()
    } else {
        let head = tree_removals(entries.drop_last(), root);
        if entries.last().root_session_id == root {
            head.push(removal_of(entries.last()))
        } else {
            head
        }
    }
}

/// What deleting a session removes, if the index knows it.
pub open spec fn deletion(
    index: SessionsIndexView,
    entries: Seq<SessionIndexEntryView>,
    id: Seq<char>,
    force: bool,
) -> Result<Option<DeletePlanView>, ErrorView> {
    if !index.sessions.contains_key(id) {
        Ok(None)
    } else {
        let e = index.sessions[id];
        if !force && e.pinned {
            Err(
                error::plain_error(
                    ErrorKind::Other,
                    "refusing to delete pinned session without force"@,
                ),
            )
        } else {
            Ok(
                Some(
                    DeletePlanView {
                        directory: e.rel_path,
                        removals: match e.kind {
                            SessionKind::Child => Seq::empty().push(
                                RemovalView {
                                    session_id: id,
                                    revision_path: revision_path(e.rel_path),
                                },
                            ),
                            SessionKind::Root => tree_removals(entries, e.id),
                        },
                    },
                ),
            )
        }
    }
}

/// The view of a decision to delete.
pub open spec fn delete_view(
    r: Result<Option<DeletePlan>, StorageError>,
) -> Result<Option<DeletePlanView>, ErrorView> {
    match r {
        Ok(Some(p)) => Ok(Some(p@)),
        Ok(None) => Ok(None),
        Err(e) => Err(e@),
    }
}

fn revision_text(rel_path: &str) -> (r: String)
    ensures
        r@ == revision_path(rel_path@),
{
    join3(rel_path, "/", SEARCH_INDEX_REVISION_FILE)
}

fn removals_of_tree(index: &SessionsIndex, root: &str) -> (r: Vec<Removal>)
    ensures
        session::views(r@) == tree_removals(index::values(index.sessions), root@),
{
    let n: usize = index.sessions.len();
    let ghost all = index::values(index.sessions);
    let mut out: Vec<Removal> = Vec::new();
    let mut i: usize = 0;
    assert(all.take(0) =~= Seq::<SessionIndexEntryView>::empty());
    assert(session::views(out@) =~= tree_removals(all.take(0), root@));
    while i < n
        invariant
            i <= n,
            n == index.sessions.pairs().len(),
            all == index::values(index.sessions),
            session::views(out@) == tree_removals(all.take(i as int), root@),
        decreases n - i,
    {
        let e = index.sessions.value_at(i);
        assert(all.take(i + 1).drop_last() =~= all.take(i as int));
        assert(all.take(i + 1).last() == e@);
        if same_text(&e.root_session_id, root) {
            let ghost before = out@;
            let removal = Removal {
                session_id: e.id.clone(),
                revision_path: revision_text(&e.rel_path),
            };
            let ghost added = removal@;
            out.push(removal);
            assert(session::views(out@) =~= session::views(before).push(added));
        }
        i = i + 1;
    }
    assert(all.take(all.len() as int) =~= all);
    out
}

/// Decides what deleting a session removes: a root goes with all that belong to it, a child
/// alone.
pub fn delete_session_recursive_locked(index: &SessionsIndex, session_id: &str, force: bool) -> (r:
    Result<Option<DeletePlan>, StorageError>)
    ensures
        delete_view(r) == deletion(index@, index::values(index.sessions), session_id@, force),
{
    let entry = match index.sessions.get(session_id) {
        Some(e) => e,
        None => {
            return Ok(None);
        },
    };
    if !force && entry.pinned {
        return Err(other_io_error("refusing to delete pinned session without force"));
    }
    let removals = match entry.kind {
        SessionKind::Child => {
            let mut v: Vec<Removal> = Vec::new();
            v.push(
                Removal {
                    session_id: session_id.to_owned(),
                    revision_path: revision_text(&entry.rel_path),
                },
            );
            assert(session::views(v@) =~= Seq::empty().push(
                RemovalView {
                    session_id: session_id@,
                    revision_path: revision_path(entry@.rel_path),
                },
            ));
            v
        },
        SessionKind::Root => removals_of_tree(index, &entry.id),
    };
    Ok(Some(DeletePlan { directory: entry.rel_path.clone(), removals }))
}

/// The entries without those of some removals.
pub open spec fn without(
    m: Map<Seq<char>, SessionIndexEntryView>,
    removals: Seq<RemovalView>,
) -> Map<Seq<char>, SessionIndexEntryView>
    decreases removals.len(),
{
    if removals.len() == 0 {
        m
    } else {
        without(m, removals.drop_last()).remove(removals.last().session_id)
    }
}

/// Takes the sessions of some removals out of the index.
pub fn apply_removals(index: &mut SessionsIndex, removals: &Vec<Removal>)
    ensures
        final(index)@ == (SessionsIndexView {
            sessions: without(old(index)@.sessions, session::views(removals@)),
            ..old(index)@
        }),
{
    let ghost original = index@;
    let ghost all = session::views(removals@);
    let mut i: usize = 0;
    assert(all.take(0) =~= Seq::<RemovalView>::empty());
    assert(index@ =~= (SessionsIndexView { sessions: without(original.sessions, all.take(0)), ..original }));
    while i < removals.len()
        invariant
            i <= removals.len(),
            all == session::views(removals@),
            index@ == (SessionsIndexView {
                sessions: without(original.sessions, all.take(i as int)),
                ..original
            }),
        decreases removals.len() - i,
    {
        assert(all.take(i + 1).drop_last() =~= all.take(i as int));
        assert(all.take(i + 1).last() == removals@[i as int]@);
        index.remove(&removals[i].session_id);
        i = i + 1;
    }
    assert(all.take(all.len() as int) =~= all);
}

/// The removals of all sessions, in the order of the index.
pub open spec fn all_removals(entries: Seq<SessionIndexEntryView>) -> Seq<RemovalView> {
    entries.map_values(|e: SessionIndexEntryView| removal_of(e))
}

/// What a reset of the store removes.
pub fn dev_reset(index: &SessionsIndex) -> (r: Vec<Removal>)
    ensures
        session::views(r@) == all_removals(index::values(index.sessions)),
{
    let n: usize = index.sessions.len();
    let ghost all = index::values(index.sessions);
    let mut out: Vec<Removal> = Vec::new();
    let mut i: usize = 0;
    while i < n
        invariant
            i <= n,
            n == index.sessions.pairs().len(),
            all == index::values(index.sessions),
            out.len() == i,
            forall|j: int| 0 <= j < i ==> (#[trigger] out@[j])@ == removal_of(all[j]),
        decreases n - i,
    {
        let e = index.sessions.value_at(i);
        out.push(
            Removal { session_id: e.id.clone(), revision_path: revision_text(&e.rel_path) },
        );
        assert(all[i as int] == e@);
        i = i + 1;
    }
    assert(session::views(out@) =~= all_removals(all));
    out
}

// ---------------------------------------------------------------------------- clearing

/// The first system message, alone, or none at all.
pub open spec fn first_system(m: Seq<MessageView>) -> Seq<MessageView>
    decreases m.len(),
{
    if m.len() == 0 {
        Seq::empty()
    } else if m[0].role == Role::System {
        Seq::empty().push(m[0])
    } else {
        first_system(m.subrange(1, m.len() as int))
    }
}

/// A session with its history cleared.
pub open spec fn cleared(s: SessionView, now: Timestamp) -> SessionView {
    SessionView {
        messages: first_system(s.messages),
        token_usage: None,
        conversation_summary: None,
        updated_at: now,
        ..s
    }
}

/// Clears a session's history: only its first system message stays.
pub fn clear_session(session: &mut Session, now: Timestamp)
    ensures
        final(session)@ == cleared(old(session)@, now),
{
    let ghost original = session@;
    let ghost all = session@.messages;
    let mut kept: Vec<Message> = Vec::new();
    let mut i: usize = 0;
    assert(all.subrange(0, all.len() as int) =~= all);
    assert(session::views(kept@) =~= Seq::<MessageView>::empty());
    while i < session.messages.len()
        invariant_except_break
            kept.len() == 0,
            first_system(all.subrange(i as int, all.len() as int)) == first_system(all),
        invariant
            i <= session.messages.len(),
            all == session::views(session.messages@),
            session@ == original,
        ensures
            session::views(kept@) == first_system(all),
        decreases session.messages.len() - i,
    {
        let ghost rest = all.subrange(i as int, all.len() as int);
        assert(rest[0] == session.messages@[i as int]@);
        assert(rest.subrange(1, rest.len() as int) =~= all.subrange(i + 1, all.len() as int));
        if session.messages[i].role == Role::System {
            kept.push(session.messages[i].duplicate());
            assert(session::views(kept@) =~= Seq::empty().push(rest[0]));
            break;
        }
        i = i + 1;
    }
    session.messages = kept;
    session.token_usage = None;
    session.conversation_summary = None;
    session.updated_at = now;
    assert(session@ =~= cleared(original, now));
}

/// What clearing a session comes to, where `fence` is the answer of the fence in front of roots.
pub open spec fn clearing(
    loaded: Result<Option<SessionView>, ErrorView>,
    fence: Result<(), ErrorView>,
    now: Timestamp,
) -> Result<Option<SessionView>, ErrorView> {
    match loaded {
        Err(e) => Err(e),
        Ok(None) => Ok(None),
        Ok(Some(s)) => match fence {
            Err(e) => Err(e),
            Ok(_) => Ok(Some(cleared(s, now))),
        },
    }
}

/// What clearing a session comes to: the session to be written, if there is one. `loaded` is the
/// session, strictly loaded, and `fence` the answer of the fence in front of roots, which comes
/// before anything is removed.
pub fn begin_clear(
    loaded: Result<Option<Session>, StorageError>,
    fence: &Result<(), StorageError>,
    now: Timestamp,
) -> (r: Result<Option<Session>, StorageError>)
    ensures
        task_journal::load_view(r) == clearing(
            task_journal::load_view(loaded),
            error::plain_view(*fence),
            now,
        ),
{
    match loaded {
        Err(e) => Err(e),
        Ok(None) => Ok(None),
        Ok(Some(s)) => match fence {
            Err(e) => Err(e.clone()),
            Ok(_) => {
                let mut session = s;
                clear_session(&mut session, now);
                Ok(Some(session))
            },
        },
    }
}

// ------------------------------------------------------------------------------ laws

/// Whether the entries name each session once, and each root belongs to itself.
pub open spec fn sound(entries: Seq<SessionIndexEntryView>) -> bool {
    &&& forall|i: int, j: int|
        0 <= i < j < entries.len() ==> (#[trigger] entries[i]).id != (#[trigger] entries[j]).id
    &&& forall|i: int|
        0 <= i < entries.len() && (#[trigger] entries[i]).kind == SessionKind::Root
            ==> entries[i].root_session_id == entries[i].id
}

/// A cleanup that keeps pinned sessions removes no pinned root, no pinned child of a root, and
/// no root with a pinned child.
pub proof fn cleanup_spares_what_is_pinned(
    entries: Seq<SessionIndexEntryView>,
    mode: CleanupMode,
    i: int,
)
    requires
        sound(entries),
        0 <= i < entries.len(),
        entries[i].pinned || (entries[i].kind == SessionKind::Root && has_pinned_child(
            entries,
            entries[i].id,
        )),
        entries[i].kind == SessionKind::Child ==> entries[i].parent_session_id == Some(
            entries[i].root_session_id,
        ),
    ensures
        !sessions_going(entries, mode, true).contains(entries[i].id),
        !roots_going(entries, mode, true).contains(entries[i].root_session_id),
{
    let e = entries[i];
    let roots = roots_going(entries, mode, true);
    assert(protected(entries, e, true));
    if roots.contains(e.root_session_id) {
        let k = choose|k: int|
            0 <= k < entries.len() && (#[trigger] entries[k]).id == e.root_session_id && root_goes(
                entries,
                entries[k],
                mode,
                true,
            );
        if e.kind == SessionKind::Root {
            if k < i {
                assert(entries[k].id != entries[i].id);
            } else if i < k {
                assert(entries[i].id != entries[k].id);
            }
        } else {
            assert(has_pinned_child(entries, entries[k].id));
        }
    }
    assert forall|k: int| 0 <= k < entries.len() && (#[trigger] entries[k]).id == e.id implies k
        == i by {
        if k < i {
            assert(entries[k].id != entries[i].id);
        } else if i < k {
            assert(entries[i].id != entries[k].id);
        }
    }
}

/// What a cleanup reports is what it removes: each removed session is one that the index knew,
/// and one that belongs to a removed root or is removed by itself.
pub proof fn cleanup_reports_known_sessions(
    entries: Seq<SessionIndexEntryView>,
    mode: CleanupMode,
    keep_pinned: bool,
    id: Seq<char>,
)
    requires
        sessions_going(entries, mode, keep_pinned).contains(id),
    ensures
        exists|i: int| 0 <= i < entries.len() && (#[trigger] entries[i]).id == id,
        mode == CleanupMode::Children ==> children_going(entries, mode, keep_pinned).contains(id),
{
}

proof fn lemma_without(
    m: Map<Seq<char>, SessionIndexEntryView>,
    removals: Seq<RemovalView>,
    k: Seq<char>,
)
    ensures
        without(m, removals).contains_key(k) <==> m.contains_key(k) && !(exists|i: int|
            0 <= i < removals.len() && (#[trigger] removals[i]).session_id == k),
        without(m, removals).contains_key(k) ==> without(m, removals)[k] == m[k],
    decreases removals.len(),
{
    if removals.len() > 0 {
        let head = removals.drop_last();
        lemma_without(m, head, k);
        if exists|i: int| 0 <= i < removals.len() && (#[trigger] removals[i]).session_id == k {
            let i = choose|i: int|
                0 <= i < removals.len() && (#[trigger] removals[i]).session_id == k;
            if i < head.len() {
                assert(head[i].session_id == k);
            }
        }
        if exists|i: int| 0 <= i < head.len() && (#[trigger] head[i]).session_id == k {
            let i = choose|i: int| 0 <= i < head.len() && (#[trigger] head[i]).session_id == k;
            assert(removals[i].session_id == k);
        }
        assert(removals[removals.len() - 1] == removals.last());
    }
}

proof fn lemma_tree_removals(entries: Seq<SessionIndexEntryView>, root: Seq<char>, k: Seq<char>)
    ensures
        (exists|i: int|
            0 <= i < tree_removals(entries, root).len() && (#[trigger] tree_removals(
                entries,
                root,
            )[i]).session_id == k) <==> (exists|i: int|
            0 <= i < entries.len() && (#[trigger] entries[i]).id == k && entries[i].root_session_id
                == root),
    decreases entries.len(),
{
    if entries.len() > 0 {
        let head = entries.drop_last();
        lemma_tree_removals(head, root, k);
        let t = tree_removals(entries, root);
        let h = tree_removals(head, root);
        if exists|i: int| 0 <= i < t.len() && (#[trigger] t[i]).session_id == k {
            let i = choose|i: int| 0 <= i < t.len() && (#[trigger] t[i]).session_id == k;
            if i < h.len() {
                assert(h[i].session_id == k);
                let j = choose|j: int|
                    0 <= j < head.len() && (#[trigger] head[j]).id == k && head[j].root_session_id
                        == root;
                assert(entries[j].id == k);
            } else {
                assert(entries[entries.len() - 1].id == k);
            }
        }
        if exists|i: int|
            0 <= i < entries.len() && (#[trigger] entries[i]).id == k && entries[i].root_session_id
                == root {
            let j = choose|j: int|
                0 <= j < entries.len() && (#[trigger] entries[j]).id == k
                    && entries[j].root_session_id == root;
            if j < head.len() {
                assert(head[j].id == k);
                let i = choose|i: int| 0 <= i < h.len() && (#[trigger] h[i]).session_id == k;
                assert(t[i].session_id == k);
            } else {
                assert(t[t.len() - 1].session_id == k);
            }
        }
    }
}

/// Deleting a root takes exactly its tree out of the index: afterwards no entry belongs to it,
/// and every entry that did not belong to it is as it was.
pub proof fn deleting_a_root_removes_its_tree(
    m: Map<Seq<char>, SessionIndexEntryView>,
    entries: Seq<SessionIndexEntryView>,
    root: Seq<char>,
    k: Seq<char>,
)
    requires
        forall|i: int|
            0 <= i < entries.len() ==> m.contains_key((#[trigger] entries[i]).id)
                && m[entries[i].id] == entries[i],
        forall|id: Seq<char>| #[trigger]
            m.contains_key(id) ==> exists|i: int|
                0 <= i < entries.len() && (#[trigger] entries[i]).id == id,
    ensures
        without(m, tree_removals(entries, root)).contains_key(k) <==> m.contains_key(k)
            && m[k].root_session_id != root,
        without(m, tree_removals(entries, root)).contains_key(k) ==> without(
            m,
            tree_removals(entries, root),
        )[k] == m[k],
{
    lemma_without(m, tree_removals(entries, root), k);
    lemma_tree_removals(entries, root, k);
    if m.contains_key(k) {
        let i = choose|i: int| 0 <= i < entries.len() && (#[trigger] entries[i]).id == k;
        assert(m[k] == entries[i]);
    }
}

/// Whether the entries are the rows of an index, each under its own id.
pub open spec fn rows_of(
    m: Map<Seq<char>, SessionIndexEntryView>,
    entries: Seq<SessionIndexEntryView>,
) -> bool {
    &&& forall|i: int|
        0 <= i < entries.len() ==> m.contains_key((#[trigger] entries[i]).id) && m[entries[i].id]
            == entries[i]
    &&& forall|id: Seq<char>| #[trigger]
        m.contains_key(id) ==> exists|i: int|
            0 <= i < entries.len() && (#[trigger] entries[i]).id == id
}

/// The rows of an index after a session was deleted: without a root and all that belong to it, or
/// without a child.
pub open spec fn rows_after(m: Map<Seq<char>, SessionIndexEntryView>, id: Seq<char>) -> Map<
    Seq<char>,
    SessionIndexEntryView,
> {
    if !m.contains_key(id) {
        m
    } else {
        match m[id].kind {
            SessionKind::Child => m.remove(id),
            SessionKind::Root => Map::new(
                |k: Seq<char>| m.contains_key(k) && m[k].root_session_id != m[id].id,
                |k: Seq<char>| m[k],
            ),
        }
    }
}

/// The rows of an index after some sessions were deleted, one after the other.
pub open spec fn rows_after_all(
    m: Map<Seq<char>, SessionIndexEntryView>,
    ids: Seq<Seq<char>>,
) -> Map<Seq<char>, SessionIndexEntryView>
    decreases ids.len(),
{
    if ids.len() == 0 {
        m
    } else {
        rows_after(rows_after_all(m, ids.drop_last()), ids.last())
    }
}

/// Taking out what a deletion plans leaves exactly the rows that stay after the session was
/// deleted.
pub proof fn a_deletion_takes_its_rows_out(
    index: SessionsIndexView,
    entries: Seq<SessionIndexEntryView>,
    id: Seq<char>,
    force: bool,
)
    requires
        rows_of(index.sessions, entries),
        deletion(index, entries, id, force) is Ok,
    ensures
        deletion(index, entries, id, force)->Ok_0 is Some == index.sessions.contains_key(id),
        deletion(index, entries, id, force)->Ok_0 is Some ==> without(
            index.sessions,
            deletion(index, entries, id, force)->Ok_0->0.removals,
        ) == rows_after(index.sessions, id),
        deletion(index, entries, id, force)->Ok_0 is None ==> rows_after(index.sessions, id)
            == index.sessions,
{
    let m = index.sessions;
    if m.contains_key(id) {
        let removals = deletion(index, entries, id, force)->Ok_0->0.removals;
        match m[id].kind {
            SessionKind::Child => {
                assert(removals.drop_last() =~= Seq::<RemovalView>::empty());
                assert(without(m, removals.drop_last()) == m);
                assert(without(m, removals) =~= rows_after(m, id));
            },
            SessionKind::Root => {
                let left = without(m, removals);
                let after = rows_after(m, id);
                assert forall|k: Seq<char>| #[trigger]
                    left.contains_key(k) <==> after.contains_key(k) by {
                    deleting_a_root_removes_its_tree(m, entries, m[id].id, k);
                }
                assert forall|k: Seq<char>| left.contains_key(k) implies #[trigger] left[k]
                    == after[k] by {
                    deleting_a_root_removes_its_tree(m, entries, m[id].id, k);
                    assert(after.contains_key(k));
                }
                assert(left.dom() =~= after.dom());
                assert(left =~= after);
            },
        }
    }
}

proof fn lemma_rows_after_roots(
    m: Map<Seq<char>, SessionIndexEntryView>,
    roots: Seq<Seq<char>>,
    k: Seq<char>,
)
    requires
        forall|i: int|
            0 <= i < roots.len() ==> m.contains_key(#[trigger] roots[i]) && m[roots[i]].kind
                == SessionKind::Root && m[roots[i]].id == roots[i],
        forall|i: int, j: int|
            0 <= i < roots.len() && 0 <= j < roots.len() && roots[i] != roots[j]
                ==> m[#[trigger] roots[i]].root_session_id != #[trigger] roots[j],
    ensures
        rows_after_all(m, roots).contains_key(k) <==> m.contains_key(k) && !roots.contains(
            m[k].root_session_id,
        ),
        rows_after_all(m, roots).contains_key(k) ==> rows_after_all(m, roots)[k] == m[k],
    decreases roots.len(),
{
    if roots.len() > 0 {
        let head = roots.drop_last();
        let r = roots.last();
        let h = rows_after_all(m, head);
        assert(roots[roots.len() - 1] == r);
        assert forall|i: int| 0 <= i < head.len() implies m.contains_key(#[trigger] head[i])
            && m[head[i]].kind == SessionKind::Root && m[head[i]].id == head[i] by {
            assert(roots[i] == head[i]);
        }
        assert forall|i: int, j: int|
            0 <= i < head.len() && 0 <= j < head.len() && head[i] != head[j] implies m[#[trigger] head[i]].root_session_id
            != #[trigger] head[j] by {
            assert(roots[i] == head[i] && roots[j] == head[j]);
        }
        lemma_rows_after_roots(m, head, k);
        lemma_rows_after_roots(m, head, r);
        let root = m[k].root_session_id;
        assert(roots.contains(root) <==> head.contains(root) || root == r) by {
            if head.contains(root) {
                let i = choose|i: int| 0 <= i < head.len() && head[i] == root;
                assert(roots[i] == root);
            }
            if roots.contains(root) {
                let i = choose|i: int| 0 <= i < roots.len() && roots[i] == root;
                if i < head.len() {
                    assert(head[i] == root);
                }
            }
        }
        if !h.contains_key(r) {
            let i = choose|i: int| 0 <= i < head.len() && head[i] == m[r].root_session_id;
            assert(head.contains(m[r].root_session_id));
            assert(roots[i] == head[i]);
            assert(head[i] == r);
            assert(head.contains(r));
        }
    } else {
        assert(!roots.contains(m[k].root_session_id));
    }
}

proof fn lemma_rows_after_children(
    m: Map<Seq<char>, SessionIndexEntryView>,
    children: Seq<Seq<char>>,
    k: Seq<char>,
)
    requires
        forall|i: int|
            0 <= i < children.len() ==> m.contains_key(#[trigger] children[i]) ==> m[children[i]].kind
                == SessionKind::Child,
    ensures
        rows_after_all(m, children).contains_key(k) <==> m.contains_key(k) && !children.contains(k),
        rows_after_all(m, children).contains_key(k) ==> rows_after_all(m, children)[k] == m[k],
    decreases children.len(),
{
    if children.len() > 0 {
        let head = children.drop_last();
        let c = children.last();
        assert(children[children.len() - 1] == c);
        assert forall|i: int| 0 <= i < head.len() implies m.contains_key(#[trigger] head[i])
            ==> m[head[i]].kind == SessionKind::Child by {
            assert(children[i] == head[i]);
        }
        lemma_rows_after_children(m, head, k);
        lemma_rows_after_children(m, head, c);
        assert(children.contains(k) <==> head.contains(k) || k == c) by {
            if head.contains(k) {
                let i = choose|i: int| 0 <= i < head.len() && head[i] == k;
                assert(children[i] == k);
            }
            if children.contains(k) {
                let i = choose|i: int| 0 <= i < children.len() && children[i] == k;
                if i < head.len() {
                    assert(head[i] == k);
                }
            }
        }
    } else {
        assert(!children.contains(k));
    }
}

/// After all deletions of a cleanup, the roots and then the children, the index is the old one
/// without exactly the sessions that the cleanup reports, as long as no root that goes belongs to
/// another one that goes.
pub proof fn a_cleanup_removes_what_it_reports(
    m: Map<Seq<char>, SessionIndexEntryView>,
    entries: Seq<SessionIndexEntryView>,
    mode: CleanupMode,
    keep_pinned: bool,
    roots: Seq<Seq<char>>,
    children: Seq<Seq<char>>,
    k: Seq<char>,
)
    requires
        rows_of(m, entries),
        roots.to_set() == roots_going(entries, mode, keep_pinned),
        children.to_set() == children_going(entries, mode, keep_pinned),
        forall|a: Seq<char>, b: Seq<char>|
            roots.contains(a) && roots.contains(b) && a != b ==> m[a].root_session_id != b,
    ensures
        ({
            let after = rows_after_all(rows_after_all(m, roots), children);
            &&& after.contains_key(k) <==> m.contains_key(k) && !sessions_going(
                entries,
                mode,
                keep_pinned,
            ).contains(k)
            &&& after.contains_key(k) ==> after[k] == m[k]
        }),
{
    let going = roots_going(entries, mode, keep_pinned);
    let leaving = children_going(entries, mode, keep_pinned);
    let h = rows_after_all(m, roots);
    assert forall|i: int| 0 <= i < roots.len() implies m.contains_key(#[trigger] roots[i])
        && m[roots[i]].kind == SessionKind::Root && m[roots[i]].id == roots[i] by {
        assert(roots.to_set().contains(roots[i]));
        let j = choose|j: int|
            0 <= j < entries.len() && (#[trigger] entries[j]).id == roots[i] && root_goes(
                entries,
                entries[j],
                mode,
                keep_pinned,
            );
        assert(m[entries[j].id] == entries[j]);
    }
    assert forall|i: int, j: int|
        0 <= i < roots.len() && 0 <= j < roots.len() && roots[i] != roots[j] implies m[#[trigger] roots[i]].root_session_id
        != #[trigger] roots[j] by {
        assert(roots.contains(roots[i]) && roots.contains(roots[j]));
    }
    lemma_rows_after_roots(m, roots, k);
    assert forall|i: int| 0 <= i < children.len() implies h.contains_key(#[trigger] children[i])
        ==> h[children[i]].kind == SessionKind::Child by {
        assert(children.to_set().contains(children[i]));
        let j = choose|j: int|
            0 <= j < entries.len() && (#[trigger] entries[j]).id == children[i] && child_goes(
                entries,
                entries[j],
                mode,
                keep_pinned,
            );
        assert(m[entries[j].id] == entries[j]);
        lemma_rows_after_roots(m, roots, children[i]);
    }
    lemma_rows_after_children(h, children, k);
    assert(children.contains(k) <==> leaving.contains(k)) by {
        assert(children.to_set().contains(k) == children.contains(k));
    }
    if m.contains_key(k) {
        let root = m[k].root_session_id;
        assert(roots.contains(root) <==> going.contains(root)) by {
            assert(roots.to_set().contains(root) == roots.contains(root));
        }
        let i = choose|i: int| 0 <= i < entries.len() && (#[trigger] entries[i]).id == k;
        assert(m[entries[i].id] == entries[i]);
        assert(sessions_going(entries, mode, keep_pinned).contains(k) <==> leaving.contains(k)
            || going.contains(root)) by {
            if exists|j: int|
                0 <= j < entries.len() && (#[trigger] entries[j]).id == k && going.contains(
                    entries[j].root_session_id,
                ) {
                let j = choose|j: int|
                    0 <= j < entries.len() && (#[trigger] entries[j]).id == k && going.contains(
                        entries[j].root_session_id,
                    );
                assert(m[entries[j].id] == entries[j]);
            }
            if going.contains(root) {
                assert(entries[i].id == k && going.contains(entries[i].root_session_id));
            }
        }
    }
}

/// Clearing keeps at most the first system message, and clearing twice keeps the same.
pub proof fn clearing_is_idempotent(s: SessionView, now: Timestamp)
    ensures
        cleared(s, now).messages.len() <= 1,
        cleared(cleared(s, now), now) == cleared(s, now),
{
    lemma_first_system(s.messages);
    assert(cleared(cleared(s, now), now) =~= cleared(s, now));
}

proof fn lemma_first_system(m: Seq<MessageView>)
    ensures
        first_system(m).len() <= 1,
        first_system(first_system(m)) == first_system(m),
    decreases m.len(),
{
    if m.len() > 0 && m[0].role != Role::System {
        lemma_first_system(m.subrange(1, m.len() as int));
    } else if m.len() > 0 {
        assert(first_system(m)[0] == m[0]);
    }
}

/// Clearing keeps exactly the first message whose role is System, where there is one, and otherwise
/// no message; of the rest of the session it drops the token usage and the summary, sets the time of
/// the change, and keeps everything else.
pub proof fn clearing_keeps_the_system_prompt(s: SessionView, now: Timestamp, i: int)
    ensures
        0 <= i < s.messages.len() && s.messages[i].role == Role::System && (forall|j: int|
            0 <= j < i ==> (#[trigger] s.messages[j]).role != Role::System) ==> cleared(
            s,
            now,
        ).messages == seq![s.messages[i]],
        (forall|j: int|
            0 <= j < s.messages.len() ==> (#[trigger] s.messages[j]).role != Role::System)
            ==> cleared(s, now).messages.len() == 0,
        cleared(s, now).token_usage is None,
        cleared(s, now).conversation_summary is None,
        cleared(s, now).updated_at == now,
        (SessionView {
            messages: s.messages,
            token_usage: s.token_usage,
            conversation_summary: s.conversation_summary,
            updated_at: s.updated_at,
            ..cleared(s, now)
        }) == s,
{
    lemma_first_of_role(s.messages, i);
}

proof fn lemma_first_of_role(m: Seq<MessageView>, i: int)
    ensures
        0 <= i < m.len() && m[i].role == Role::System && (forall|j: int|
            0 <= j < i ==> (#[trigger] m[j]).role != Role::System) ==> first_system(m)
            == seq![m[i]],
        (forall|j: int| 0 <= j < m.len() ==> (#[trigger] m[j]).role != Role::System)
            ==> first_system(m).len() == 0,
    decreases m.len(),
{
    if m.len() > 0 && m[0].role != Role::System {
        let rest = m.subrange(1, m.len() as int);
        lemma_first_of_role(rest, i - 1);
        if forall|j: int| 0 <= j < m.len() ==> (#[trigger] m[j]).role != Role::System {
            assert forall|j: int| 0 <= j < rest.len() implies (#[trigger] rest[j]).role
                != Role::System by {
                assert(rest[j] == m[j + 1]);
            }
        }
        if 0 <= i < m.len() && m[i].role == Role::System && (forall|j: int|
            0 <= j < i ==> (#[trigger] m[j]).role != Role::System) {
            assert(rest[i - 1] == m[i]);
            assert forall|j: int| 0 <= j < i - 1 implies (#[trigger] rest[j]).role
                != Role::System by {
                assert(rest[j] == m[j + 1]);
            }
        }
    } else if m.len() > 0 {
        assert(Seq::empty().push(m[0]) =~= seq![m[0]]);
        assert(m[0].role == Role::System);
    }
}

/// A cleanup takes a root exactly where it is not one of children alone, nothing pinned protects the
/// root, and, if it is one of empty sessions, the root has at most one message. It takes a child by
/// itself under the same rules, unless the child goes with its root.
pub proof fn what_a_cleanup_takes(
    entries: Seq<SessionIndexEntryView>,
    mode: CleanupMode,
    keep_pinned: bool,
    i: int,
)
    requires
        0 <= i < entries.len(),
    ensures
        ({
            let e = entries[i];
            let pinned_below = exists|j: int|
                0 <= j < entries.len() && (#[trigger] entries[j]).kind == SessionKind::Child
                    && entries[j].pinned && entries[j].parent_session_id == Some(e.id);
            let kept = keep_pinned && (e.pinned || (e.kind == SessionKind::Root && pinned_below));
            let small = mode == CleanupMode::Empty ==> e.message_count <= 1;
            &&& e.kind == SessionKind::Root && !kept && small && mode != CleanupMode::Children
                ==> roots_going(entries, mode, keep_pinned).contains(e.id)
            &&& e.kind == SessionKind::Child && !kept && small && (mode == CleanupMode::Children
                || !roots_going(entries, mode, keep_pinned).contains(e.root_session_id))
                ==> children_going(entries, mode, keep_pinned).contains(e.id) && sessions_going(
                entries,
                mode,
                keep_pinned,
            ).contains(e.id)
            &&& roots_going(entries, mode, keep_pinned).contains(e.root_session_id)
                ==> sessions_going(entries, mode, keep_pinned).contains(e.id)
        }),
{
    let e = entries[i];
    assert(protected(entries, e, keep_pinned) <==> keep_pinned && (e.pinned || (e.kind
        == SessionKind::Root && has_pinned_child(entries, e.id))));
}

/// A cleanup takes nothing else: each root that it takes is a root of the index that nothing pinned
/// protects, with at most one message if it is one of empty sessions; one of children alone takes
/// no root; each child that it takes by itself is a child of the index of which the same holds; and
/// each session that it reports is such a child or belongs to such a root.
pub proof fn a_cleanup_takes_nothing_else(
    entries: Seq<SessionIndexEntryView>,
    mode: CleanupMode,
    keep_pinned: bool,
    id: Seq<char>,
)
    ensures
        mode == CleanupMode::Children ==> !roots_going(entries, mode, keep_pinned).contains(id),
        roots_going(entries, mode, keep_pinned).contains(id) ==> exists|i: int|
            0 <= i < entries.len() && (#[trigger] entries[i]).id == id && entries[i].kind
                == SessionKind::Root && (mode == CleanupMode::Empty ==> entries[i].message_count
                <= 1) && (keep_pinned ==> !entries[i].pinned && !(exists|j: int|
                0 <= j < entries.len() && (#[trigger] entries[j]).kind == SessionKind::Child
                    && entries[j].pinned && entries[j].parent_session_id == Some(id))),
        children_going(entries, mode, keep_pinned).contains(id) ==> exists|i: int|
            0 <= i < entries.len() && (#[trigger] entries[i]).id == id && entries[i].kind
                == SessionKind::Child && (mode == CleanupMode::Empty ==> entries[i].message_count
                <= 1) && (keep_pinned ==> !entries[i].pinned),
        sessions_going(entries, mode, keep_pinned).contains(id) ==> children_going(
            entries,
            mode,
            keep_pinned,
        ).contains(id) || exists|i: int|
            0 <= i < entries.len() && (#[trigger] entries[i]).id == id && roots_going(
                entries,
                mode,
                keep_pinned,
            ).contains(entries[i].root_session_id),
{
    if roots_going(entries, mode, keep_pinned).contains(id) {
        let i = choose|i: int|
            0 <= i < entries.len() && (#[trigger] entries[i]).id == id && root_goes(
                entries,
                entries[i],
                mode,
                keep_pinned,
            );
        assert(entries[i].id == id);
        assert(keep_pinned ==> !has_pinned_child(entries, id));
    }
    if children_going(entries, mode, keep_pinned).contains(id) {
        let i = choose|i: int|
            0 <= i < entries.len() && (#[trigger] entries[i]).id == id && child_goes(
                entries,
                entries[i],
                mode,
                keep_pinned,
            );
        assert(entries[i].id == id);
    }
}

/// A deletion is refused exactly for a pinned session without force, and finds nothing exactly where
/// the index does not know the session. What it removes is the directory that the index states, and
/// in the search index the revision file under the directory of each session that goes.
pub proof fn what_a_deletion_removes(
    index: SessionsIndexView,
    entries: Seq<SessionIndexEntryView>,
    id: Seq<char>,
    force: bool,
    i: int,
)
    ensures
        ({
            let r = deletion(index, entries, id, force);
            &&& r is Err <==> index.sessions.contains_key(id) && index.sessions[id].pinned && !force
            &&& r is Ok ==> (r->Ok_0 is Some <==> index.sessions.contains_key(id))
            &&& r is Ok && r->Ok_0 is Some ==> {
                let e = index.sessions[id];
                let removals = r->Ok_0->0.removals;
                &&& r->Ok_0->0.directory == e.rel_path
                &&& e.kind == SessionKind::Child ==> removals.len() == 1 && removals[0].session_id
                    == id && removals[0].revision_path == e.rel_path + "/"@
                    + ".search-index-revision"@
                &&& e.kind == SessionKind::Root && 0 <= i < entries.len()
                    && entries[i].root_session_id == e.id ==> removals.contains(
                    (RemovalView {
                        session_id: entries[i].id,
                        revision_path: entries[i].rel_path + "/"@ + ".search-index-revision"@,
                    }),
                )
            }
        }),
{
    if index.sessions.contains_key(id) && 0 <= i < entries.len() && entries[i].root_session_id
        == index.sessions[id].id {
        lemma_removal_is_there(entries, index.sessions[id].id, i);
    }
}

proof fn lemma_removal_is_there(entries: Seq<SessionIndexEntryView>, root: Seq<char>, i: int)
    requires
        0 <= i < entries.len(),
        entries[i].root_session_id == root,
    ensures
        tree_removals(entries, root).contains(removal_of(entries[i])),
    decreases entries.len(),
{
    let head = entries.drop_last();
    let all = tree_removals(entries, root);
    let before = tree_removals(head, root);
    if i < head.len() {
        assert(head[i] == entries[i]);
        lemma_removal_is_there(head, root, i);
        let j = choose|j: int| 0 <= j < before.len() && before[j] == removal_of(entries[i]);
        assert(all[j] == removal_of(entries[i]));
    } else {
        assert(all[before.len() as int] == removal_of(entries[i]));
    }
}

/// Removals take the rows of their sessions out of the index and leave every other row as it was.
pub proof fn removals_take_their_rows_out(
    m: Map<Seq<char>, SessionIndexEntryView>,
    removals: Seq<RemovalView>,
    k: Seq<char>,
)
    ensures
        without(m, removals).contains_key(k) <==> m.contains_key(k) && !(exists|i: int|
            0 <= i < removals.len() && (#[trigger] removals[i]).session_id == k),
        without(m, removals).contains_key(k) ==> without(m, removals)[k] == m[k],
{
    lemma_without(m, removals, k);
}

/// A reset removes every session of the index.
pub proof fn a_reset_removes_every_row(entries: Seq<SessionIndexEntryView>, i: int)
    ensures
        all_removals(entries).len() == entries.len(),
        0 <= i < entries.len() ==> all_removals(entries)[i].session_id == entries[i].id
            && all_removals(entries)[i].revision_path == entries[i].rel_path + "/"@
            + ".search-index-revision"@,
{
}

/// What is said of these values is said of their own fields: none is left out or exchanged.
pub proof fn nothing_is_left_unseen(a: Removal, b: DeletePlan)
    ensures
        a@.session_id == a.session_id@ && a@.revision_path == a.revision_path@,
        b@.removals.len() == b.removals@.len(),
        forall|i: int|
            0 <= i < b.removals@.len() ==> #[trigger] b@.removals[i] == b.removals@[i]@,
        b@.directory == b.directory@,
{
}

/// What a deletion comes to is seen as it is: a plan, nothing, or a failure.
pub proof fn deletions_are_seen_whole(p: DeletePlan, e: StorageError)
    ensures
        delete_view(Ok(Some(p))) == Ok::<Option<DeletePlanView>, ErrorView>(Some(p@)),
        delete_view(Ok(None)) == Ok::<Option<DeletePlanView>, ErrorView>(None),
        delete_view(Err(e)) == Err::<Option<DeletePlanView>, ErrorView>(e@),
{
}

/// Clearing writes a session exactly where there is one and the fence lets it through: that session,
/// cleared, under its own id, updated now. A failure of the load or of the fence is
/// answered as it is.
pub proof fn when_a_session_is_cleared(
    loaded: Result<Option<SessionView>, ErrorView>,
    fence: Result<(), ErrorView>,
    now: Timestamp,
)
    ensures
        loaded is Err ==> clearing(loaded, fence, now) is Err && clearing(loaded, fence, now)->Err_0
            == loaded->Err_0,
        loaded is Ok && loaded->Ok_0 is None ==> clearing(loaded, fence, now) == loaded,
        loaded is Ok && loaded->Ok_0 is Some && fence is Err ==> clearing(loaded, fence, now) is Err
            && clearing(loaded, fence, now)->Err_0 == fence->Err_0,
        loaded is Ok && loaded->Ok_0 is Some && fence is Ok ==> ({
            let r = clearing(loaded, fence, now);
            &&& r is Ok && r->Ok_0 is Some && r->Ok_0->0.id == loaded->Ok_0->0.id
            &&& r->Ok_0->0.updated_at == now
            &&& r->Ok_0->0 == cleared(loaded->Ok_0->0, now)
        }),
{
}

/// A pinned session is not deleted without force: that is refused with no special kind.
pub proof fn a_pinned_session_is_not_deleted(
    index: SessionsIndexView,
    entries: Seq<SessionIndexEntryView>,
    id: Seq<char>,
    force: bool,
)
    ensures
        deletion(index, entries, id, force) is Err <==> index.sessions.contains_key(id)
            && index.sessions[id].pinned && !force,
        deletion(index, entries, id, force) is Err ==> deletion(
            index,
            entries,
            id,
            force,
        )->Err_0.kind == ErrorKind::Other,
{
}

} // verus!
