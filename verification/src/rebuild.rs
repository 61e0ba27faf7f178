//! Rebuilding what can be derived from the session tree: the index, the search index and the
//! runtime sidecars of older sessions.
use crate::error::{ErrorView, StorageError};
use crate::error;
use crate::index::{index_entry, IndexFile, OpenedIndexView, SessionIndexEntryView, SessionPlacement, SessionPlacementView, SessionsIndex, SessionsIndexView, SESSIONS_INDEX_VERSION};
use crate::index;
use crate::paths::{child_rel_path, root_rel_path};
use crate::paths;
use crate::session::{Session, SessionView};
use crate::session;
use crate::task_journal;
use crate::task_protocol;
use crate::time::Timestamp;
use crate::time;
use vstd::prelude::*;

verus! {

// ---------------------------------------------------------------------------------- the tree

/// One entry of a directory of sessions.
pub struct TreeEntry {
    /// The name, where it is text.
    pub name: Option<String>,
    /// Whether it is a directory; one whose type cannot be read is not.
    pub is_directory: bool,
}

/// One entry of the directory of roots, with what its directory of children lists. A listing that
/// fails ends where it failed.
pub struct RootEntry {
    pub entry: TreeEntry,
    pub children: Vec<TreeEntry>,
}

/// A session directory to be indexed.
pub struct RebuildItem {
    pub session_id: String,
    pub rel_path: String,
}

/// What a [`RebuildItem`] holds.
#[verifier::ext_equal]
pub struct RebuildItemView {
    pub session_id: Seq<char>,
    pub rel_path: Seq<char>,
}

impl View for RebuildItem {
    type V = RebuildItemView;

    open spec fn view(&self) -> RebuildItemView {
        RebuildItemView { session_id: self.session_id@, rel_path: self.rel_path@ }
    }
}

/// The session that an entry may hold, by its name.
pub open spec fn entry_id(e: TreeEntry) -> Option<Seq<char>> {
    if e.is_directory && e.name is Some {
        Some(e.name->0@)
    } else {
        None
    }
}

/// The children of a root, in the order of their listing.
pub open spec fn child_items(root: Seq<char>, children: Seq<TreeEntry>) -> Seq<RebuildItemView>
    decreases children.len(),
{
    if children.len() == 0 {
        Seq::empty()
    } else {
        let head = child_items(root, children.drop_last());
        match entry_id(children.last()) {
            Some(id) => head.push(
                RebuildItemView { session_id: id, rel_path: paths::child_path(root, id) },
            ),
            None => head,
        }
    }
}

/// A root followed by its children.
pub open spec fn root_items(r: RootEntry) -> Seq<RebuildItemView> {
    match entry_id(r.entry) {
        None => Seq::empty(),
        Some(id) => seq![RebuildItemView { session_id: id, rel_path: paths::root_path(id) }]
            + child_items(id, r.children@),
    }
}

/// Every session directory of a tree, each root before its children.
pub open spec fn tree_items(roots: Seq<RootEntry>) -> Seq<RebuildItemView>
    decreases roots.len(),
{
    if roots.len() == 0 {
        Seq::empty()
    } else {
        tree_items(roots.drop_last()) + root_items(roots.last())
    }
}

/// What some items hold.
pub open spec fn item_views(v: Seq<RebuildItem>) -> Seq<RebuildItemView> {
    v.map_values(|i: RebuildItem| i@)
}

fn add_item(out: &mut Vec<RebuildItem>, session_id: String, rel_path: String)
    ensures
        item_views(final(out)@) == item_views(old(out)@).push(
            RebuildItemView { session_id: session_id@, rel_path: rel_path@ },
        ),
{
    let ghost before = out@;
    out.push(RebuildItem { session_id, rel_path });
    assert(item_views(out@) =~= item_views(before).push(
        RebuildItemView { session_id: session_id@, rel_path: rel_path@ },
    ));
}

fn add_root(out: &mut Vec<RebuildItem>, r: &RootEntry)
    ensures
        item_views(final(out)@) == item_views(old(out)@) + root_items(*r),
{
    let ghost before = item_views(out@);
    if !r.entry.is_directory {
        assert(before + root_items(*r) =~= before);
        return;
    }
    let id = match &r.entry.name {
        None => {
            assert(before + root_items(*r) =~= before);
            return;
        },
        Some(id) => id,
    };
    add_item(out, id.clone(), root_rel_path(id));
    let ghost first = RebuildItemView { session_id: id@, rel_path: paths::root_path(id@) };
    let mut i: usize = 0;
    assert(r.children@.take(0) =~= Seq::<TreeEntry>::empty());
    assert(item_views(out@) =~= before.push(first) + child_items(id@, r.children@.take(0)));
    while i < r.children.len()
        invariant
            i <= r.children.len(),
            item_views(out@) == before.push(first) + child_items(
                id@,
                r.children@.take(i as int),
            ),
        decreases r.children.len() - i,
    {
        assert(r.children@.take(i + 1).drop_last() =~= r.children@.take(i as int));
        let ghost earlier = item_views(out@);
        let entry = &r.children[i];
        if entry.is_directory {
            match &entry.name {
                Some(child) => add_item(out, child.clone(), child_rel_path(id, child)),
                None => {},
            }
        }
        assert(item_views(out@) =~= before.push(first) + child_items(
            id@,
            r.children@.take(i + 1),
        ));
        i = i + 1;
    }
    assert(r.children@.take(r.children@.len() as int) =~= r.children@);
    assert(item_views(out@) =~= before + root_items(*r));
}

/// Every session directory of a tree, each root before its children.
pub fn rebuild_items(roots: &Vec<RootEntry>) -> (r: Vec<RebuildItem>)
    ensures
        item_views(r@) == tree_items(roots@),
{
    let mut out: Vec<RebuildItem> = Vec::new();
    let mut i: usize = 0;
    assert(roots@.take(0) =~= Seq::<RootEntry>::empty());
    assert(item_views(out@) =~= tree_items(roots@.take(0)));
    while i < roots.len()
        invariant
            i <= roots.len(),
            item_views(out@) == tree_items(roots@.take(i as int)),
        decreases roots.len() - i,
    {
        assert(roots@.take(i + 1).drop_last() =~= roots@.take(i as int));
        add_root(&mut out, &roots[i]);
        i = i + 1;
    }
    assert(roots@.take(roots@.len() as int) =~= roots@);
    out
}

/// What a rebuild of the index has to visit: nothing where the session tree cannot be listed.
pub open spec fn rebuild_start(listing: Result<Seq<RootEntry>, ErrorView>) -> Option<
    Seq<RebuildItemView>,
> {
    match listing {
        Ok(roots) => Some(tree_items(roots)),
        Err(_) => None,
    }
}

/// What a listing of the tree gave.
pub open spec fn tree_listing(r: Result<Vec<RootEntry>, StorageError>) -> Result<
    Seq<RootEntry>,
    ErrorView,
> {
    match r {
        Ok(v) => Ok(v@),
        Err(e) => Err(e@),
    }
}

/// What the start of a rebuild gave.
pub open spec fn rebuild_view(r: Option<Vec<RebuildItem>>) -> Option<Seq<RebuildItemView>> {
    match r {
        Some(v) => Some(item_views(v@)),
        None => None,
    }
}

/// Decides what a rebuild of the index visits. A session tree that cannot be listed is tolerated:
/// there is then nothing to rebuild, and the index stays marked for a later rebuild.
pub fn rebuild_index_from_disk(listing: Result<Vec<RootEntry>, StorageError>) -> (r: Option<
    Vec<RebuildItem>,
>)
    ensures
        rebuild_view(r) == rebuild_start(tree_listing(listing)),
{
    match listing {
        Ok(roots) => Some(rebuild_items(&roots)),
        Err(_) => None,
    }
}

// ------------------------------------------------------------------------------ the entries

/// A session that a visited directory held, and what else its row in the index says.
pub struct FoundSession {
    pub session: Session,
    pub has_attachments: bool,
    /// What the session's `placement` metadata parses to.
    pub placement: Option<SessionPlacement>,
    /// What the parser of Project ids makes of the session's.
    pub project: Option<String>,
}

/// What a [`FoundSession`] holds.
#[verifier::ext_equal]
pub struct FoundView {
    pub session: SessionView,
    pub has_attachments: bool,
    pub placement: Option<SessionPlacementView>,
    pub project: Option<Seq<char>>,
}

impl View for FoundSession {
    type V = FoundView;

    open spec fn view(&self) -> FoundView {
        FoundView {
            session: self.session@,
            has_attachments: self.has_attachments,
            placement: session::opt_view(self.placement),
            project: session::opt_text(self.project),
        }
    }
}

/// A visit of a directory: its place, and the session that it held, if one could be read.
#[verifier::ext_equal]
pub struct Visit {
    pub rel_path: Seq<char>,
    pub found: Option<FoundView>,
}

/// The row of a found session.
pub open spec fn found_row(rel_path: Seq<char>, f: FoundView) -> SessionIndexEntryView {
    index::entry_of(f.session, rel_path, f.has_attachments, f.placement, f.project)
}

/// The index after a visit: a row that is newer than the session keeps what it says.
pub open spec fn visited(i: SessionsIndexView, v: Visit) -> SessionsIndexView {
    match v.found {
        None => i,
        Some(f) => SessionsIndexView {
            sessions: index::upserted(
                i.sessions,
                f.session.id,
                found_row(v.rel_path, f),
                true,
            ),
            ..i
        },
    }
}

/// Puts the session of a visited directory into the index; gives whether there was one.
pub fn rebuild_index_entry_from_dir(
    index: &mut SessionsIndex,
    rel_path: String,
    found: Option<FoundSession>,
) -> (r: bool)
    ensures
        final(index)@ == visited(
            old(index)@,
            (Visit { rel_path: rel_path@, found: session::opt_view(found) }),
        ),
        r == (found is Some),
{
    match found {
        None => false,
        Some(f) => {
            let entry = index_entry(
                &f.session,
                rel_path,
                f.has_attachments,
                &f.placement,
                &f.project,
            );
            index.upsert_index_from_session_inner(entry, true);
            true
        },
    }
}

/// The index after some visits.
pub open spec fn visited_all(i: SessionsIndexView, visits: Seq<Visit>) -> SessionsIndexView
    decreases visits.len(),
{
    if visits.len() == 0 {
        i
    } else {
        visited(visited_all(i, visits.drop_last()), visits.last())
    }
}

/// The index after a rebuild: after all visits it is committed under the current version.
pub open spec fn rebuilt(i: SessionsIndexView, visits: Seq<Visit>) -> SessionsIndexView {
    SessionsIndexView {
        version: SESSIONS_INDEX_VERSION,
        rebuild_in_progress: false,
        ..visited_all(i, visits)
    }
}

// ------------------------------------------------------------------------- the search index

/// The session that a rebuild of the search index takes up, if any.
pub open spec fn search_item(
    loaded: Result<Option<SessionView>, ErrorView>,
    indexable: bool,
    located: bool,
) -> Result<Option<SessionView>, ErrorView> {
    match loaded {
        Err(e) => Err(e),
        Ok(None) => Ok(None),
        Ok(Some(s)) => if indexable && located {
            Ok(Some(s))
        } else {
            Ok(None)
        },
    }
}

/// What rebuilding the search index of one session comes to: the session to be indexed, if any.
/// `indexable` says whether it is recent enough, and `located` whether the index knows its place.
pub fn search_rebuild_item(
    loaded: Result<Option<Session>, StorageError>,
    indexable: bool,
    located: bool,
) -> (r: Result<Option<Session>, StorageError>)
    ensures
        task_journal::load_view(r) == search_item(task_journal::load_view(loaded), indexable, located),
{
    match loaded {
        Err(e) => Err(e),
        Ok(None) => Ok(None),
        Ok(Some(s)) => if indexable && located {
            Ok(Some(s))
        } else {
            Ok(None)
        },
    }
}

// ------------------------------------------------------------------------------- migration

/// What the migration of sidecars does next.
#[derive(Debug, Clone, Copy, PartialEq, Eq, Structural)]
pub enum MigrationStep {
    /// Look at the session at hand, and decide whether it gets a sidecar.
    Inspect,
    /// Write the sidecar of the session at hand.
    Write,
    /// Write the marker that the migration is complete.
    WriteMarker,
    Finished,
}

/// A migration that gives every indexed session without a sidecar one.
pub struct SidecarMigration {
    pub entries: usize,
    pub next: usize,
    pub migrated: usize,
    pub step: MigrationStep,
    pub failure: Option<StorageError>,
}

/// What a [`SidecarMigration`] holds.
#[verifier::ext_equal]
pub struct MigrationView {
    pub entries: int,
    pub next: int,
    pub migrated: int,
    pub step: MigrationStep,
    pub failure: Option<ErrorView>,
}

impl View for SidecarMigration {
    type V = MigrationView;

    open spec fn view(&self) -> MigrationView {
        MigrationView {
            entries: self.entries as int,
            next: self.next as int,
            migrated: self.migrated as int,
            step: self.step,
            failure: task_protocol::opt_error(self.failure),
        }
    }
}

/// The migration at the session of an index, or past the last one.
pub open spec fn migration_at(m: MigrationView, next: int) -> MigrationView {
    MigrationView {
        next,
        step: if next < m.entries {
            MigrationStep::Inspect
        } else {
            MigrationStep::WriteMarker
        },
        ..m
    }
}

/// A migration that has not begun: none at all where one was completed before.
pub open spec fn migration_start(marked: bool, entries: int) -> MigrationView {
    let m = MigrationView {
        entries,
        next: 0,
        migrated: 0,
        step: MigrationStep::Finished,
        failure: None,
    };
    if marked {
        m
    } else {
        migration_at(m, 0)
    }
}

/// The migration over, with a failure.
pub open spec fn migration_failed(m: MigrationView, e: ErrorView) -> MigrationView {
    MigrationView { step: MigrationStep::Finished, failure: Some(e), ..m }
}

/// The migration after the session at hand was looked at.
pub open spec fn migration_inspected(m: MigrationView, wanted: Result<bool, ErrorView>) -> MigrationView {
    match wanted {
        Err(e) => migration_failed(m, e),
        Ok(true) => MigrationView { step: MigrationStep::Write, ..m },
        Ok(false) => migration_at(m, m.next + 1),
    }
}

/// The migration after the outcome of a write.
pub open spec fn migration_wrote(m: MigrationView, outcome: Result<(), ErrorView>) -> MigrationView {
    match outcome {
        Err(e) => migration_failed(m, e),
        Ok(_) => if m.step == MigrationStep::Write {
            migration_at(MigrationView { migrated: m.migrated + 1, ..m }, m.next + 1)
        } else {
            MigrationView { step: MigrationStep::Finished, ..m }
        },
    }
}

impl MigrationView {
    /// Whether the migration is at a session while one is left, and has given no more sidecars
    /// than it has passed sessions.
    pub open spec fn well_formed(self) -> bool {
        &&& 0 <= self.migrated <= self.next <= self.entries <= usize::MAX
        &&& self.step == MigrationStep::Inspect || self.step == MigrationStep::Write ==> self.next
            < self.entries
        &&& self.step == MigrationStep::WriteMarker ==> self.next == self.entries
        &&& self.step != MigrationStep::Finished ==> self.failure is None
    }
}

impl SidecarMigration {
    fn at(self, next: usize) -> (r: SidecarMigration)
        ensures
            r@ == migration_at(self@, next as int),
    {
        SidecarMigration {
            step: if next < self.entries {
                MigrationStep::Inspect
            } else {
                MigrationStep::WriteMarker
            },
            next,
            ..self
        }
    }

    /// Begins a migration over some indexed sessions; `marked` says that one was completed.
    pub fn migrate_runtime_sidecars(marked: bool, entries: usize) -> (r: SidecarMigration)
        ensures
            r@ == migration_start(marked, entries as int),
            r@.well_formed(),
    {
        let m = SidecarMigration {
            entries,
            next: 0,
            migrated: 0,
            step: MigrationStep::Finished,
            failure: None,
        };
        if marked {
            m
        } else {
            m.at(0)
        }
    }

    /// Takes whether the session at hand gets a sidecar.
    pub fn on_inspected(self, wanted: Result<bool, StorageError>) -> (r: SidecarMigration)
        requires
            self@.well_formed(),
            self.step == MigrationStep::Inspect,
        ensures
            r@ == migration_inspected(self@, error::plain_view(wanted)),
            r@.well_formed(),
    {
        match wanted {
            Err(e) => SidecarMigration { step: MigrationStep::Finished, failure: Some(e), ..self },
            Ok(true) => SidecarMigration { step: MigrationStep::Write, ..self },
            Ok(false) => {
                let next: usize = self.next + 1;
                self.at(next)
            },
        }
    }

    /// Takes the outcome of writing a sidecar or the marker.
    pub fn on_written(self, outcome: Result<(), StorageError>) -> (r: SidecarMigration)
        requires
            self@.well_formed(),
            self.step == MigrationStep::Write || self.step == MigrationStep::WriteMarker,
        ensures
            r@ == migration_wrote(self@, error::plain_view(outcome)),
            r@.well_formed(),
    {
        match outcome {
            Err(e) => SidecarMigration { step: MigrationStep::Finished, failure: Some(e), ..self },
            Ok(_) => match self.step {
                MigrationStep::Write => {
                    let next: usize = self.next + 1;
                    let migrated: usize = self.migrated + 1;
                    let m = SidecarMigration { migrated, ..self };
                    m.at(next)
                },
                _ => SidecarMigration { step: MigrationStep::Finished, ..self },
            },
        }
    }
}

// ------------------------------------------------------------------------------------ laws

/// The migration is marked complete only after every session was passed without a failure; one
/// that is cut short leaves no marker and is run again.
pub proof fn the_marker_comes_last(
    m: MigrationView,
    wanted: Result<bool, ErrorView>,
    outcome: Result<(), ErrorView>,
)
    requires
        m.well_formed(),
    ensures
        m.step == MigrationStep::WriteMarker ==> m.next == m.entries && m.failure is None,
        m.step == MigrationStep::Inspect ==> migration_inspected(m, wanted).well_formed(),
        m.step == MigrationStep::Write || m.step == MigrationStep::WriteMarker ==> migration_wrote(
            m,
            outcome,
        ).well_formed(),
        m.step == MigrationStep::Inspect && migration_inspected(m, wanted).step
            == MigrationStep::Finished ==> migration_inspected(m, wanted).failure is Some,
        m.step == MigrationStep::Write && migration_wrote(m, outcome).step
            == MigrationStep::Finished ==> migration_wrote(m, outcome).failure is Some,
{
}

/// Every directory of a root with a name of text is visited, at the root's place.
pub proof fn a_rebuild_visits_every_root(roots: Seq<RootEntry>, i: int)
    requires
        0 <= i < roots.len(),
        entry_id(roots[i].entry) is Some,
    ensures
        tree_items(roots).contains(
            RebuildItemView {
                session_id: entry_id(roots[i].entry)->0,
                rel_path: paths::root_path(entry_id(roots[i].entry)->0),
            },
        ),
    decreases roots.len(),
{
    let item = RebuildItemView {
        session_id: entry_id(roots[i].entry)->0,
        rel_path: paths::root_path(entry_id(roots[i].entry)->0),
    };
    let head = tree_items(roots.drop_last());
    let tail = root_items(roots.last());
    if i == roots.len() - 1 {
        assert(tail[0] == item);
        assert((head + tail)[head.len() as int] == item);
    } else {
        a_rebuild_visits_every_root(roots.drop_last(), i);
        let k = choose|k: int| 0 <= k < head.len() && head[k] == item;
        assert((head + tail)[k] == item);
    }
}

proof fn lemma_child_visited(root: Seq<char>, children: Seq<TreeEntry>, j: int)
    requires
        0 <= j < children.len(),
        entry_id(children[j]) is Some,
    ensures
        child_items(root, children).contains(
            RebuildItemView {
                session_id: entry_id(children[j])->0,
                rel_path: paths::child_path(root, entry_id(children[j])->0),
            },
        ),
    decreases children.len(),
{
    let item = RebuildItemView {
        session_id: entry_id(children[j])->0,
        rel_path: paths::child_path(root, entry_id(children[j])->0),
    };
    let head = child_items(root, children.drop_last());
    let all = child_items(root, children);
    if j == children.len() - 1 {
        assert(all[head.len() as int] == item);
    } else {
        lemma_child_visited(root, children.drop_last(), j);
        let k = choose|k: int| 0 <= k < head.len() && head[k] == item;
        assert(all[k] == item);
    }
}

/// Every directory of a child with a name of text is visited, at its place under its root.
pub proof fn a_rebuild_visits_every_child(roots: Seq<RootEntry>, i: int, j: int)
    requires
        0 <= i < roots.len(),
        entry_id(roots[i].entry) is Some,
        0 <= j < roots[i].children.len(),
        entry_id(roots[i].children@[j]) is Some,
    ensures
        tree_items(roots).contains(
            RebuildItemView {
                session_id: entry_id(roots[i].children@[j])->0,
                rel_path: paths::child_path(
                    entry_id(roots[i].entry)->0,
                    entry_id(roots[i].children@[j])->0,
                ),
            },
        ),
    decreases roots.len(),
{
    let root = entry_id(roots[i].entry)->0;
    let item = RebuildItemView {
        session_id: entry_id(roots[i].children@[j])->0,
        rel_path: paths::child_path(root, entry_id(roots[i].children@[j])->0),
    };
    let head = tree_items(roots.drop_last());
    let tail = root_items(roots.last());
    if i == roots.len() - 1 {
        lemma_child_visited(root, roots[i].children@, j);
        let c = child_items(root, roots[i].children@);
        let k = choose|k: int| 0 <= k < c.len() && c[k] == item;
        assert(tail[k + 1] == item);
        assert((head + tail)[head.len() + k + 1] == item);
    } else {
        a_rebuild_visits_every_child(roots.drop_last(), i, j);
        let k = choose|k: int| 0 <= k < head.len() && head[k] == item;
        assert((head + tail)[k] == item);
    }
}

/// Whether some visit found the session.
pub open spec fn finds(visits: Seq<Visit>, id: Seq<char>) -> bool {
    exists|k: int|
        0 <= k < visits.len() && (#[trigger] visits[k]).found is Some
            && visits[k].found->0.session.id == id
}

/// A session tree that cannot be listed stops nothing: the rebuild ends without a failure and
/// without a change, and since the index still carries the mark of a rebuild, the next opening
/// takes it as it is and rebuilds again.
pub proof fn an_unreadable_tree_is_never_fatal(e: ErrorView, i: SessionsIndex, now: Timestamp)
    requires
        i@.version < SESSIONS_INDEX_VERSION,
        i@.rebuild_in_progress,
    ensures
        rebuild_start(Err(e)) is None,
        visited_all(i@, Seq::empty()) == i@,
        index::opened(IndexFile::Parsed(i), now) == Ok::<OpenedIndexView, ErrorView>(
            OpenedIndexView {
                index: i@,
                needs_rebuild: true,
                publish: false,
                back_up: false,
            },
        ),
{
}

proof fn lemma_finds_last(visits: Seq<Visit>, id: Seq<char>)
    requires
        visits.len() > 0,
    ensures
        finds(visits, id) <==> finds(visits.drop_last(), id) || (visits.last().found is Some
            && visits.last().found->0.session.id == id),
{
    let head = visits.drop_last();
    if finds(head, id) {
        let k = choose|k: int|
            0 <= k < head.len() && (#[trigger] head[k]).found is Some
                && head[k].found->0.session.id == id;
        assert(visits[k] == head[k]);
    }
    if finds(visits, id) {
        let k = choose|k: int|
            0 <= k < visits.len() && (#[trigger] visits[k]).found is Some
                && visits[k].found->0.session.id == id;
        if k < head.len() {
            assert(head[k] == visits[k]);
        }
    }
}

/// After a rebuild the index lists exactly the sessions that it listed and those that were found.
/// One that was not found keeps its row; a found one is listed under its own id at the place
/// where it was found last, and its row is never older than the one that was there.
#[verifier::spinoff_prover]
#[verifier::rlimit(40)]
pub proof fn a_rebuild_lists_every_session_found(i: SessionsIndexView, visits: Seq<Visit>)
    ensures
        rebuilt(i, visits).version == SESSIONS_INDEX_VERSION,
        !rebuilt(i, visits).rebuild_in_progress,
        forall|id: Seq<char>| #[trigger]
            rebuilt(i, visits).sessions.contains_key(id) <==> i.sessions.contains_key(id) || finds(
                visits,
                id,
            ),
        forall|id: Seq<char>|
            i.sessions.contains_key(id) ==> !time::before(
                (#[trigger] rebuilt(i, visits).sessions[id]).updated_at,
                i.sessions[id].updated_at,
            ),
        forall|id: Seq<char>|
            i.sessions.contains_key(id) && !finds(visits, id) ==> #[trigger] rebuilt(
                i,
                visits,
            ).sessions[id] == i.sessions[id],
        forall|k: int|
            0 <= k < visits.len() && (#[trigger] visits[k]).found is Some && !finds(
                visits.skip(k + 1),
                visits[k].found->0.session.id,
            ) ==> {
                let row = rebuilt(i, visits).sessions[visits[k].found->0.session.id];
                row.id == visits[k].found->0.session.id && row.rel_path == visits[k].rel_path
            },
    decreases visits.len(),
{
    if visits.len() > 0 {
        let head = visits.drop_last();
        let last = visits.last();
        let n = head.len() as int;
        a_rebuild_lists_every_session_found(i, head);
        let before = rebuilt(i, head);
        let after = rebuilt(i, visits);
        assert(visits[n] == last);
        assert forall|id: Seq<char>| finds(visits, id) <==> finds(head, id) || (last.found is Some
            && last.found->0.session.id == id) by {
            lemma_finds_last(visits, id);
        }
        assert forall|id: Seq<char>| #[trigger]
            after.sessions.contains_key(id) <==> i.sessions.contains_key(id) || finds(
                visits,
                id,
            ) by {
            assert(before.sessions.contains_key(id) <==> i.sessions.contains_key(id) || finds(
                head,
                id,
            ));
        }
        assert forall|id: Seq<char>| i.sessions.contains_key(id) implies !time::before(
            (#[trigger] after.sessions[id]).updated_at,
            i.sessions[id].updated_at,
        ) by {
            assert(!time::before(before.sessions[id].updated_at, i.sessions[id].updated_at));
        }
        assert forall|id: Seq<char>|
            i.sessions.contains_key(id) && !finds(visits, id) implies #[trigger] after.sessions[id]
            == i.sessions[id] by {
            assert(before.sessions[id] == i.sessions[id]);
        }
        assert forall|k: int|
            0 <= k < visits.len() && (#[trigger] visits[k]).found is Some && !finds(
                visits.skip(k + 1),
                visits[k].found->0.session.id,
            ) implies {
            let row = after.sessions[visits[k].found->0.session.id];
            row.id == visits[k].found->0.session.id && row.rel_path == visits[k].rel_path
        } by {
            let id = visits[k].found->0.session.id;
            if k < n {
                let rest = visits.skip(k + 1);
                assert(rest[n - k - 1] == last);
                assert(head[k] == visits[k]);
                if finds(head.skip(k + 1), id) {
                    let j = choose|j: int|
                        0 <= j < head.skip(k + 1).len() && (#[trigger] head.skip(k + 1)[j]).found is Some
                            && head.skip(k + 1)[j].found->0.session.id == id;
                    assert(rest[j] == head.skip(k + 1)[j]);
                }
                assert(before.sessions[id].rel_path == visits[k].rel_path);
            }
        }
    }
}

/// A rebuild visits nothing else: whatever it visits is the directory of a root with a name of text,
/// at the root's place, or one of a child listed under such a root, at its place there.
pub proof fn a_rebuild_visits_nothing_else(roots: Seq<RootEntry>, item: RebuildItemView)
    requires
        tree_items(roots).contains(item),
    ensures
        exists|i: int|
            0 <= i < roots.len() && (#[trigger] roots[i]).entry.is_directory && roots[i].entry.name
                is Some && (item == (RebuildItemView {
                session_id: roots[i].entry.name->0@,
                rel_path: "sessions/"@ + roots[i].entry.name->0@,
            }) || exists|j: int|
                0 <= j < roots[i].children@.len() && (#[trigger] roots[i].children@[j]).is_directory
                    && roots[i].children@[j].name is Some && item == (RebuildItemView {
                    session_id: roots[i].children@[j].name->0@,
                    rel_path: "sessions/"@ + roots[i].entry.name->0@ + "/children/"@
                        + roots[i].children@[j].name->0@,
                })),
    decreases roots.len(),
{
    let head = roots.drop_last();
    let before = tree_items(head);
    let last = roots.last();
    let k = choose|k: int| 0 <= k < tree_items(roots).len() && tree_items(roots)[k] == item;
    if k < before.len() {
        assert(before[k] == item);
        a_rebuild_visits_nothing_else(head, item);
        let i = choose|i: int|
            0 <= i < head.len() && (#[trigger] head[i]).entry.is_directory && head[i].entry.name
                is Some && (item == (RebuildItemView {
                session_id: head[i].entry.name->0@,
                rel_path: "sessions/"@ + head[i].entry.name->0@,
            }) || exists|j: int|
                0 <= j < head[i].children@.len() && (#[trigger] head[i].children@[j]).is_directory
                    && head[i].children@[j].name is Some && item == (RebuildItemView {
                    session_id: head[i].children@[j].name->0@,
                    rel_path: "sessions/"@ + head[i].entry.name->0@ + "/children/"@
                        + head[i].children@[j].name->0@,
                }));
        assert(roots[i] == head[i]);
    } else {
        let items = root_items(last);
        assert(items[k - before.len()] == item);
        let n = roots.len() - 1;
        assert(roots[n] == last);
        let id = entry_id(last.entry)->0;
        if k > before.len() {
            let inner = child_items(id, last.children@);
            assert(inner[k - before.len() - 1] == item);
            lemma_child_item(id, last.children@, item);
            let j = choose|j: int|
                0 <= j < last.children@.len() && (#[trigger] last.children@[j]).is_directory
                    && last.children@[j].name is Some && item == (RebuildItemView {
                    session_id: last.children@[j].name->0@,
                    rel_path: "sessions/"@ + id + "/children/"@ + last.children@[j].name->0@,
                });
            assert(roots[n].children@[j] == last.children@[j]);
        }
    }
}

proof fn lemma_child_item(root: Seq<char>, children: Seq<TreeEntry>, item: RebuildItemView)
    requires
        child_items(root, children).contains(item),
    ensures
        exists|j: int|
            0 <= j < children.len() && (#[trigger] children[j]).is_directory && children[j].name
                is Some && item == (RebuildItemView {
                session_id: children[j].name->0@,
                rel_path: "sessions/"@ + root + "/children/"@ + children[j].name->0@,
            }),
    decreases children.len(),
{
    let head = children.drop_last();
    let before = child_items(root, head);
    let k = choose|k: int|
        0 <= k < child_items(root, children).len() && child_items(root, children)[k] == item;
    if k < before.len() {
        assert(before[k] == item);
        lemma_child_item(root, head, item);
        let j = choose|j: int|
            0 <= j < head.len() && (#[trigger] head[j]).is_directory && head[j].name is Some && item
                == (RebuildItemView {
                session_id: head[j].name->0@,
                rel_path: "sessions/"@ + root + "/children/"@ + head[j].name->0@,
            });
        assert(children[j] == head[j]);
    } else {
        assert(children[children.len() - 1] == children.last());
    }
}

/// Which entries of a listing may be sessions: directories with a name of text, under that name.
pub proof fn a_directory_may_be_a_session(e: TreeEntry)
    ensures
        entry_id(e) is Some <==> e.is_directory && e.name is Some,
        entry_id(e) is Some ==> entry_id(e)->0 == e.name->0@,
{
}

/// A visit that found a session lists it: under its own id, at the place of the visit, with the row
/// of the session as it was found, unless the index had a newer row, which keeps its summary. Every
/// other row and the rest of the index stay, and a visit that found none changes nothing.
pub proof fn a_visit_lists_what_it_found(i: SessionsIndexView, v: Visit, k: Seq<char>)
    ensures
        v.found is None ==> visited(i, v) == i,
        v.found is Some ==> {
            let f = v.found->0;
            let id = f.session.id;
            let row = index::entry_of(
                f.session,
                v.rel_path,
                f.has_attachments,
                f.placement,
                f.project,
            );
            let after = visited(i, v);
            let newer = i.sessions.contains_key(id) && time::before(
                f.session.updated_at,
                i.sessions[id].updated_at,
            );
            &&& after.sessions.contains_key(id)
            &&& !newer ==> after.sessions[id] == row
            &&& newer ==> after.sessions[id].title == i.sessions[id].title
                && after.sessions[id].message_count == i.sessions[id].message_count
                && after.sessions[id].updated_at == i.sessions[id].updated_at
                && after.sessions[id].rel_path == v.rel_path
            &&& k != id ==> (after.sessions.contains_key(k) == i.sessions.contains_key(k)) && (
            i.sessions.contains_key(k) ==> after.sessions[k] == i.sessions[k])
            &&& (SessionsIndexView { sessions: i.sessions, ..after }) == i
        },
{
}

/// A migration goes through the sessions one by one, from the first: it writes a runtime file exactly
/// where one is wanted, counts it, and goes on to the next session; past the last it writes its
/// marker, and is then complete. A failure ends it, and one that was completed before does nothing.
pub proof fn a_migration_goes_through_every_session(
    m: MigrationView,
    wanted: bool,
    e: ErrorView,
    entries: int,
)
    requires
        m.well_formed(),
    ensures
        migration_start(true, entries).step == MigrationStep::Finished && migration_start(
            true,
            entries,
        ).failure is None && migration_start(true, entries).migrated == 0,
        entries > 0 ==> migration_start(false, entries).step == MigrationStep::Inspect
            && migration_start(false, entries).next == 0,
        entries == 0 ==> migration_start(false, entries).step == MigrationStep::WriteMarker,
        m.step == MigrationStep::Inspect ==> ({
            let r = migration_inspected(m, Ok(wanted));
            &&& wanted ==> r.step == MigrationStep::Write && r.next == m.next && r.migrated
                == m.migrated
            &&& !wanted ==> r.next == m.next + 1 && r.migrated == m.migrated
            &&& !wanted && m.next + 1 < m.entries ==> r.step == MigrationStep::Inspect
            &&& !wanted && m.next + 1 == m.entries ==> r.step == MigrationStep::WriteMarker
        }),
        m.step == MigrationStep::Write ==> ({
            let r = migration_wrote(m, Ok(()));
            &&& r.next == m.next + 1 && r.migrated == m.migrated + 1
            &&& m.next + 1 < m.entries ==> r.step == MigrationStep::Inspect
            &&& m.next + 1 == m.entries ==> r.step == MigrationStep::WriteMarker
        }),
        m.step == MigrationStep::WriteMarker ==> migration_wrote(m, Ok(())).step
            == MigrationStep::Finished && migration_wrote(m, Ok(())).failure is None
            && migration_wrote(m, Ok(())).migrated == m.migrated,
        migration_inspected(m, Err(e)).step == MigrationStep::Finished && migration_inspected(
            m,
            Err(e),
        ).failure == Some(e),
        migration_wrote(m, Err(e)).step == MigrationStep::Finished && migration_wrote(
            m,
            Err(e),
        ).failure == Some(e),
{
}

/// What is said of these values is said of their own fields: none is left out or exchanged.
pub proof fn nothing_is_left_unseen(a: RebuildItem, b: FoundSession, c: SidecarMigration)
    ensures
        a@.session_id == a.session_id@ && a@.rel_path == a.rel_path@,
        b@.placement is Some <==> b.placement is Some,
        b.placement is Some ==> b@.placement->0 == b.placement->0@,
        b@.project is Some <==> b.project is Some,
        b.project is Some ==> b@.project->0 == b.project->0@,
        b@.session == b.session@ && b@.has_attachments == b.has_attachments,
        c@.failure is Some <==> c.failure is Some,
        c.failure is Some ==> c@.failure->0 == c.failure->0@,
        c@.entries == c.entries && c@.next == c.next,
        c@.migrated == c.migrated && c@.step == c.step,
{
}

/// What a rebuild is given and comes to is seen as it is.
pub proof fn rebuilds_are_seen_whole(
    items: Vec<RebuildItem>,
    i: int,
    entries: Vec<RootEntry>,
    e: StorageError,
)
    ensures
        item_views(items@).len() == items@.len(),
        0 <= i < items@.len() ==> item_views(items@)[i] == items@[i]@,
        rebuild_view(None) == None::<Seq<RebuildItemView>>,
        rebuild_view(Some(items)) is Some && rebuild_view(Some(items))->0 == item_views(items@),
        tree_listing(Ok(entries)) == Ok::<Seq<RootEntry>, ErrorView>(entries@),
        tree_listing(Err(e)) == Err::<Seq<RootEntry>, ErrorView>(e@),
{
}

/// A rebuild of the search index takes up exactly the sessions that load, may be indexed and have a
/// place, each as it was loaded; a failure to load is answered as it is.
pub proof fn what_the_search_takes_up(
    s: SessionView,
    e: ErrorView,
    indexable: bool,
    located: bool,
)
    ensures
        search_item(Err(e), indexable, located) == Err::<Option<SessionView>, ErrorView>(e),
        search_item(Ok(None), indexable, located) == Ok::<Option<SessionView>, ErrorView>(None),
        search_item(Ok(Some(s)), true, true) == Ok::<Option<SessionView>, ErrorView>(Some(s)),
        !indexable || !located ==> search_item(Ok(Some(s)), indexable, located) == Ok::<
            Option<SessionView>,
            ErrorView,
        >(None),
{
}

} // verus!
