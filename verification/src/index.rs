//! The global index: a rebuildable cache over the sessions on disk.
use crate::error::{other_io_error, ErrorKind, ErrorView, StorageError};
use crate::error;
use crate::session::{clone_opt, get_text, Session, SessionKind, SessionPermissionMode, SessionView};
use crate::session;
use crate::strmap::StrMap;
use crate::strmap;
use crate::text::{is_blank, join2, same_option_text, same_text, trim};
use crate::text;
use crate::time::Timestamp;
use crate::time;
use vstd::prelude::*;

verus! {

/// Version of the index.
pub const SESSIONS_INDEX_VERSION: u32 = 4;

/// Where a session's agent runs.
#[derive(Debug, Clone, PartialEq, Eq)]
pub struct SessionPlacement {
    /// Deployment kind: `local`, `docker` or `ssh`.
    pub kind: String,
    /// Host that the agent runs on.
    pub host: String,
}

/// What a [`SessionPlacement`] holds.
#[verifier::ext_equal]
pub struct SessionPlacementView {
    pub kind: Seq<char>,
    pub host: Seq<char>,
}

impl View for SessionPlacement {
    type V = SessionPlacementView;

    open spec fn view(&self) -> SessionPlacementView {
        SessionPlacementView {
            kind: self.kind@,
            host: self.host@,
        }
    }
}

impl SessionPlacement {
    /// A second value that holds the same.
    pub fn duplicate(&self) -> (r: SessionPlacement)
        ensures
            r@ == self@,
    {
        let r = SessionPlacement {
            kind: self.kind.clone(),
            host: self.host.clone(),
        };
        assert(r@ =~= self@);
        r
    }
}

/// What the index says of one session.
pub struct SessionIndexEntry {
    pub id: String,
    pub kind: SessionKind,
    /// Directory of the session, relative to the home directory.
    pub rel_path: String,
    pub title: String,
    pub title_version: u64,
    pub title_generated: bool,
    pub pinned: bool,
    pub parent_session_id: Option<String>,
    pub root_session_id: String,
    pub spawn_depth: u32,
    pub model: String,
    pub model_ref: Option<String>,
    pub reasoning_effort: Option<String>,
    pub workspace_path: Option<String>,
    /// Normalized Project id.
    pub project_id: Option<String>,
    pub gold_config_json: Option<String>,
    pub created_by_schedule_id: Option<String>,
    pub schedule_run_id: Option<String>,
    pub created_at: Timestamp,
    pub updated_at: Timestamp,
    pub last_activity_at: Timestamp,
    pub message_count: usize,
    pub has_attachments: bool,
    pub has_pending_question: bool,
    pub plan_mode: Option<String>,
    /// Whether the permission mode is another than the default one.
    pub bypass_permissions: bool,
    pub permission_mode: SessionPermissionMode,
    pub last_run_status: Option<String>,
    pub last_run_error: Option<String>,
    pub token_usage: Option<String>,
    pub subagent_type: Option<String>,
    pub lifecycle: Option<String>,
    pub resident_name: Option<String>,
    /// Where the session's agent runs.
    pub placement: Option<SessionPlacement>,
}

/// What a [`SessionIndexEntry`] holds.
#[verifier::ext_equal]
pub struct SessionIndexEntryView {
    pub id: Seq<char>,
    pub kind: SessionKind,
    pub rel_path: Seq<char>,
    pub title: Seq<char>,
    pub title_version: u64,
    pub title_generated: bool,
    pub pinned: bool,
    pub parent_session_id: Option<Seq<char>>,
    pub root_session_id: Seq<char>,
    pub spawn_depth: u32,
    pub model: Seq<char>,
    pub model_ref: Option<Seq<char>>,
    pub reasoning_effort: Option<Seq<char>>,
    pub workspace_path: Option<Seq<char>>,
    pub project_id: Option<Seq<char>>,
    pub gold_config_json: Option<Seq<char>>,
    pub created_by_schedule_id: Option<Seq<char>>,
    pub schedule_run_id: Option<Seq<char>>,
    pub created_at: Timestamp,
    pub updated_at: Timestamp,
    pub last_activity_at: Timestamp,
    pub message_count: usize,
    pub has_attachments: bool,
    pub has_pending_question: bool,
    pub plan_mode: Option<Seq<char>>,
    pub bypass_permissions: bool,
    pub permission_mode: SessionPermissionMode,
    pub last_run_status: Option<Seq<char>>,
    pub last_run_error: Option<Seq<char>>,
    pub token_usage: Option<Seq<char>>,
    pub subagent_type: Option<Seq<char>>,
    pub lifecycle: Option<Seq<char>>,
    pub resident_name: Option<Seq<char>>,
    pub placement: Option<SessionPlacementView>,
}

impl View for SessionIndexEntry {
    type V = SessionIndexEntryView;

    open spec fn view(&self) -> SessionIndexEntryView {
        SessionIndexEntryView {
            id: self.id@,
            kind: self.kind,
            rel_path: self.rel_path@,
            title: self.title@,
            title_version: self.title_version,
            title_generated: self.title_generated,
            pinned: self.pinned,
            parent_session_id: session::opt_text(self.parent_session_id),
            root_session_id: self.root_session_id@,
            spawn_depth: self.spawn_depth,
            model: self.model@,
            model_ref: session::opt_text(self.model_ref),
            reasoning_effort: session::opt_text(self.reasoning_effort),
            workspace_path: session::opt_text(self.workspace_path),
            project_id: session::opt_text(self.project_id),
            gold_config_json: session::opt_text(self.gold_config_json),
            created_by_schedule_id: session::opt_text(self.created_by_schedule_id),
            schedule_run_id: session::opt_text(self.schedule_run_id),
            created_at: self.created_at,
            updated_at: self.updated_at,
            last_activity_at: self.last_activity_at,
            message_count: self.message_count,
            has_attachments: self.has_attachments,
            has_pending_question: self.has_pending_question,
            plan_mode: session::opt_text(self.plan_mode),
            bypass_permissions: self.bypass_permissions,
            permission_mode: self.permission_mode,
            last_run_status: session::opt_text(self.last_run_status),
            last_run_error: session::opt_text(self.last_run_error),
            token_usage: session::opt_text(self.token_usage),
            subagent_type: session::opt_text(self.subagent_type),
            lifecycle: session::opt_text(self.lifecycle),
            resident_name: session::opt_text(self.resident_name),
            placement: session::opt_view(self.placement),
        }
    }
}

impl SessionIndexEntry {
    /// A second value that holds the same.
    pub fn duplicate(&self) -> (r: SessionIndexEntry)
        ensures
            r@ == self@,
    {
        let r = SessionIndexEntry {
            id: self.id.clone(),
            kind: self.kind,
            rel_path: self.rel_path.clone(),
            title: self.title.clone(),
            title_version: self.title_version,
            title_generated: self.title_generated,
            pinned: self.pinned,
            parent_session_id: clone_opt(&self.parent_session_id),
            root_session_id: self.root_session_id.clone(),
            spawn_depth: self.spawn_depth,
            model: self.model.clone(),
            model_ref: clone_opt(&self.model_ref),
            reasoning_effort: clone_opt(&self.reasoning_effort),
            workspace_path: clone_opt(&self.workspace_path),
            project_id: clone_opt(&self.project_id),
            gold_config_json: clone_opt(&self.gold_config_json),
            created_by_schedule_id: clone_opt(&self.created_by_schedule_id),
            schedule_run_id: clone_opt(&self.schedule_run_id),
            created_at: self.created_at,
            updated_at: self.updated_at,
            last_activity_at: self.last_activity_at,
            message_count: self.message_count,
            has_attachments: self.has_attachments,
            has_pending_question: self.has_pending_question,
            plan_mode: clone_opt(&self.plan_mode),
            bypass_permissions: self.bypass_permissions,
            permission_mode: self.permission_mode,
            last_run_status: clone_opt(&self.last_run_status),
            last_run_error: clone_opt(&self.last_run_error),
            token_usage: clone_opt(&self.token_usage),
            subagent_type: clone_opt(&self.subagent_type),
            lifecycle: clone_opt(&self.lifecycle),
            resident_name: clone_opt(&self.resident_name),
            placement: match &self.placement {
                Some(v) => Some(v.duplicate()),
                None => None,
            },
        };
        assert(r@ =~= self@);
        r
    }
}

/// Whether a title counts as generated where the index does not say.
pub fn default_title_generated() -> (r: bool)
    ensures
        r,
{
    true
}

// ---------------------------------------------------------------- building entries

/// An optional text, unless it is blank.
pub open spec fn unless_blank(o: Option<Seq<char>>) -> Option<Seq<char>> {
    match o {
        Some(s) => if text::trimmed(s).len() > 0 {
            Some(s)
        } else {
            None
        },
        None => None,
    }
}

/// An optional text without the white space around it, unless nothing is left.
pub open spec fn trimmed_unless_blank(o: Option<Seq<char>>) -> Option<Seq<char>> {
    match o {
        Some(s) => if text::trimmed(s).len() > 0 {
            Some(text::trimmed(s))
        } else {
            None
        },
        None => None,
    }
}

/// The text under a metadata key.
pub open spec fn meta(s: SessionView, key: Seq<char>) -> Option<Seq<char>> {
    if s.metadata.contains_key(key) {
        Some(s.metadata[key])
    } else {
        None
    }
}

fn drop_blank(o: Option<String>) -> (r: Option<String>)
    ensures
        session::opt_text(r) == unless_blank(session::opt_text(o)),
{
    match o {
        Some(s) => if is_blank(&s) {
            None
        } else {
            Some(s)
        },
        None => None,
    }
}

fn trim_or_drop(o: Option<String>) -> (r: Option<String>)
    ensures
        session::opt_text(r) == trimmed_unless_blank(session::opt_text(o)),
{
    match o {
        Some(s) => {
            let t = trim(&s);
            if t.is_empty() {
                None
            } else {
                Some(t.to_owned())
            }
        },
        None => None,
    }
}

/// What the Project id parser is given for a session.
pub open spec fn project_text(s: SessionView) -> Option<Seq<char>> {
    match s.project() {
        Some(p) => Some(text::trimmed(p)),
        None => None,
    }
}

/// What to hand to the Project id parser for a session.
pub fn project_id_text(session: &Session) -> (r: Option<String>)
    ensures
        session::opt_text(r) == project_text(session@),
{
    match session.project_id_meta() {
        Some(p) => Some(trim(&p).to_owned()),
        None => None,
    }
}

/// The Project id that the index holds for a session: what the parser made of its text, where
/// `parsed` is none for a malformed one.
pub open spec fn indexed_project(s: SessionView, parsed: Option<Seq<char>>) -> Option<Seq<char>> {
    match s.project() {
        Some(_) => parsed,
        None => None,
    }
}

/// The Project id that the index holds for a session: a malformed one is left out.
pub fn normalized_project_id(session: &Session, parsed: &Option<String>) -> (r: Option<String>)
    ensures
        session::opt_text(r) == indexed_project(session@, session::opt_text(*parsed)),
{
    match session.project_id_meta() {
        Some(_) => clone_opt(parsed),
        None => None,
    }
}

/// The workspace path that the index holds for a session.
pub open spec fn indexed_workspace(s: SessionView) -> Option<Seq<char>> {
    trimmed_unless_blank(s.workspace())
}

/// The workspace path that the index holds for a session.
pub fn normalized_workspace(session: &Session) -> (r: Option<String>)
    ensures
        session::opt_text(r) == indexed_workspace(session@),
{
    trim_or_drop(session.workspace_path_meta())
}

/// What the index says of a session.
pub open spec fn entry_of(
    s: SessionView,
    rel_path: Seq<char>,
    has_attachments: bool,
    placement: Option<SessionPlacementView>,
    project: Option<Seq<char>>,
) -> SessionIndexEntryView {
    SessionIndexEntryView {
        id: s.id,
        kind: s.kind,
        rel_path,
        title: s.title,
        title_version: s.title_version,
        title_generated: s.title_generated,
        pinned: s.pinned,
        parent_session_id: s.parent_session_id,
        root_session_id: s.root_session_id,
        spawn_depth: s.spawn_depth,
        model: s.model,
        model_ref: s.model_ref,
        reasoning_effort: s.reasoning_effort,
        workspace_path: indexed_workspace(s),
        project_id: indexed_project(s, project),
        gold_config_json: unless_blank(meta(s, "gold_config"@)),
        created_by_schedule_id: unless_blank(meta(s, "created_by_schedule_id"@)),
        schedule_run_id: unless_blank(meta(s, "schedule_run_id"@)),
        created_at: s.created_at,
        updated_at: s.updated_at,
        last_activity_at: s.updated_at,
        message_count: s.messages.len() as usize,
        has_attachments,
        has_pending_question: s.pending_question is Some,
        plan_mode: match s.agent_runtime_state {
            Some(a) => a.plan_mode,
            None => None,
        },
        bypass_permissions: s.permission_mode() != SessionPermissionMode::Default,
        permission_mode: s.permission_mode(),
        last_run_status: unless_blank(s.run_status()),
        last_run_error: unless_blank(s.run_error()),
        token_usage: s.token_usage,
        subagent_type: unless_blank(s.profile()),
        lifecycle: unless_blank(meta(s, "lifecycle"@)),
        resident_name: unless_blank(meta(s, "resident_name"@)),
        placement: if s.metadata.contains_key("placement"@) {
            placement
        } else {
            None
        },
    }
}

/// Builds what the index says of a session. `placement` is what the session's `placement`
/// metadata parses to, and `project` what the Project id parser makes of its Project id.
pub fn index_entry(
    session: &Session,
    rel_path: String,
    has_attachments: bool,
    placement: &Option<SessionPlacement>,
    project: &Option<String>,
) -> (r: SessionIndexEntry)
    ensures
        r@ == entry_of(
            session@,
            rel_path@,
            has_attachments,
            session::opt_view(*placement),
            session::opt_text(*project),
        ),
{
    let mode = session.effective_permission_mode();
    let placed = if session.metadata.contains_key("placement") {
        match placement {
            Some(p) => Some(p.duplicate()),
            None => None,
        }
    } else {
        None
    };
    let r = SessionIndexEntry {
        id: session.id.clone(),
        kind: session.kind,
        rel_path,
        title: session.title.clone(),
        title_version: session.title_version,
        title_generated: session.title_generated,
        pinned: session.pinned,
        parent_session_id: clone_opt(&session.parent_session_id),
        root_session_id: session.root_session_id.clone(),
        spawn_depth: session.spawn_depth,
        model: session.model.clone(),
        model_ref: clone_opt(&session.model_ref),
        reasoning_effort: clone_opt(&session.reasoning_effort),
        workspace_path: normalized_workspace(session),
        project_id: normalized_project_id(session, project),
        gold_config_json: drop_blank(get_text(&session.metadata, "gold_config")),
        created_by_schedule_id: drop_blank(get_text(&session.metadata, "created_by_schedule_id")),
        schedule_run_id: drop_blank(get_text(&session.metadata, "schedule_run_id")),
        created_at: session.created_at,
        updated_at: session.updated_at,
        last_activity_at: session.updated_at,
        message_count: session.messages.len(),
        has_attachments,
        has_pending_question: session.pending_question.is_some(),
        plan_mode: match &session.agent_runtime_state {
            Some(a) => clone_opt(&a.plan_mode),
            None => None,
        },
        bypass_permissions: mode != SessionPermissionMode::Default,
        permission_mode: mode,
        last_run_status: drop_blank(session.last_run_status()),
        last_run_error: drop_blank(session.last_run_error()),
        token_usage: clone_opt(&session.token_usage),
        subagent_type: drop_blank(session.subagent_type()),
        lifecycle: drop_blank(get_text(&session.metadata, "lifecycle")),
        resident_name: drop_blank(get_text(&session.metadata, "resident_name")),
        placement: placed,
    };
    assert(session@.messages.len() == session.messages@.len());
    r
}

// ------------------------------------------------------------------------ the index

/// The index of all sessions.
pub struct SessionsIndex {
    pub version: u32,
    pub updated_at: Timestamp,
    pub sessions: StrMap<SessionIndexEntry>,
    /// Whether a rebuild has begun and not ended.
    pub rebuild_in_progress: bool,
}

/// What a [`SessionsIndex`] holds.
#[verifier::ext_equal]
pub struct SessionsIndexView {
    pub version: u32,
    pub updated_at: Timestamp,
    pub sessions: Map<Seq<char>, SessionIndexEntryView>,
    pub rebuild_in_progress: bool,
}

/// Entries by id, each taken as what it holds.
pub open spec fn entry_map(
    m: StrMap<SessionIndexEntry>,
) -> Map<Seq<char>, SessionIndexEntryView> {
    m@.map_values(|e: SessionIndexEntry| e@)
}

impl View for SessionsIndex {
    type V = SessionsIndexView;

    open spec fn view(&self) -> SessionsIndexView {
        SessionsIndexView {
            version: self.version,
            updated_at: self.updated_at,
            sessions: entry_map(self.sessions),
            rebuild_in_progress: self.rebuild_in_progress,
        }
    }
}

/// An index of no sessions.
pub open spec fn empty_index(now: Timestamp) -> SessionsIndexView {
    SessionsIndexView {
        version: SESSIONS_INDEX_VERSION,
        updated_at: now,
        sessions: Map::empty(),
        rebuild_in_progress: false,
    }
}

/// An entry that keeps its newer summary, at the canonical place of another.
pub open spec fn replaced(
    existing: SessionIndexEntryView,
    entry: SessionIndexEntryView,
) -> SessionIndexEntryView {
    SessionIndexEntryView {
        id: entry.id,
        kind: entry.kind,
        rel_path: entry.rel_path,
        parent_session_id: entry.parent_session_id,
        root_session_id: entry.root_session_id,
        spawn_depth: entry.spawn_depth,
        ..existing
    }
}

/// The entries with one put in: where a newer one is to be kept, only its place changes.
pub open spec fn upserted(
    m: Map<Seq<char>, SessionIndexEntryView>,
    id: Seq<char>,
    entry: SessionIndexEntryView,
    preserve_newer: bool,
) -> Map<Seq<char>, SessionIndexEntryView> {
    if preserve_newer && m.contains_key(id) && time::before(entry.updated_at, m[id].updated_at) {
        m.insert(id, replaced(m[id], entry))
    } else {
        m.insert(id, entry)
    }
}

/// The index with the workspace and the Project of a session that it lists set.
pub open spec fn owned_by(
    index: SessionsIndexView,
    id: Seq<char>,
    workspace: Option<Seq<char>>,
    project: Option<Seq<char>>,
) -> SessionsIndexView {
    if index.sessions.contains_key(id) {
        SessionsIndexView {
            sessions: index.sessions.insert(
                id,
                SessionIndexEntryView {
                    workspace_path: workspace,
                    project_id: project,
                    ..index.sessions[id]
                },
            ),
            ..index
        }
    } else {
        index
    }
}

/// The index once its rebuild is over.
pub open spec fn rebuilt(index: SessionsIndexView) -> SessionsIndexView {
    SessionsIndexView { version: SESSIONS_INDEX_VERSION, rebuild_in_progress: false, ..index }
}

impl SessionsIndex {
    /// An index of no sessions.
    pub fn empty(now: Timestamp) -> (r: SessionsIndex)
        ensures
            r@ == empty_index(now),
    {
        let r = SessionsIndex {
            version: SESSIONS_INDEX_VERSION,
            updated_at: now,
            sessions: StrMap::new(),
            rebuild_in_progress: false,
        };
        assert(r@.sessions =~= Map::<Seq<char>, SessionIndexEntryView>::empty());
        r
    }

    /// A second index that holds the same.
    pub fn duplicate(&self) -> (r: SessionsIndex)
        ensures
            r@ == self@,
    {
        let n: usize = self.sessions.len();
        let mut sessions: StrMap<SessionIndexEntry> = StrMap::new();
        let mut i: usize = 0;
        while i < n
            invariant
                i <= n,
                n == self.sessions.pairs().len(),
                strmap::describes(self.sessions.pairs(), self.sessions@),
                forall|k: Seq<char>| #[trigger]
                    sessions@.contains_key(k) <==> strmap::has_key(
                        self.sessions.pairs().take(i as int),
                        k,
                    ),
                forall|k: Seq<char>| #[trigger]
                    sessions@.contains_key(k) ==> self.sessions@.contains_key(k) && sessions@[k]@
                        == self.sessions@[k]@,
            decreases n - i,
        {
            let ghost earlier = sessions@;
            let ghost p = self.sessions.pairs();
            let key = self.sessions.key_at(i).clone();
            let value = self.sessions.value_at(i).duplicate();
            sessions.insert(key, value);
            proof {
                assert forall|k: Seq<char>| #[trigger] sessions@.contains_key(k) <==> strmap::has_key(
                    p.take(i + 1),
                    k,
                ) by {
                    if earlier.contains_key(k) {
                        let j = strmap::key_index(p.take(i as int), k);
                        assert(p.take(i as int)[j].0@ == k);
                        assert(p.take(i + 1)[j].0@ == k);
                    }
                    if k == key@ {
                        assert(p.take(i + 1)[i as int].0@ == k);
                    }
                    if strmap::has_key(p.take(i + 1), k) {
                        let j = strmap::key_index(p.take(i + 1), k);
                        assert(p.take(i + 1)[j].0@ == k);
                        if j < i {
                            assert(p.take(i as int)[j].0@ == k);
                        }
                    }
                }
                assert(p[i as int].0@ == key@);
            }
            i = i + 1;
        }
        let r = SessionsIndex {
            version: self.version,
            updated_at: self.updated_at,
            sessions,
            rebuild_in_progress: self.rebuild_in_progress,
        };
        proof {
            assert(self.sessions.pairs().take(n as int) =~= self.sessions.pairs());
            assert forall|k: Seq<char>| self.sessions@.contains_key(k) implies r.sessions@.contains_key(
                k,
            ) by {
                assert(strmap::has_key(self.sessions.pairs(), k));
            }
            assert(r@.sessions =~= self@.sessions);
        }
        r
    }

    /// The entry of a session.
    pub fn get_index_entry(&self, session_id: &str) -> (r: Option<SessionIndexEntry>)
        ensures
            session::opt_view(r) == if self@.sessions.contains_key(session_id@) {
                Some(self@.sessions[session_id@])
            } else {
                None
            },
    {
        match self.sessions.get(session_id) {
            Some(e) => Some(e.duplicate()),
            None => None,
        }
    }

    /// The directory of a session, relative to the home directory.
    pub fn resolve_rel_path(&self, session_id: &str) -> (r: Option<String>)
        ensures
            session::opt_text(r) == if self@.sessions.contains_key(session_id@) {
                Some(self@.sessions[session_id@].rel_path)
            } else {
                None
            },
    {
        match self.sessions.get(session_id) {
            Some(e) => Some(e.rel_path.clone()),
            None => None,
        }
    }

    /// Puts an entry in; where a newer one is to be kept, only its place is repaired.
    pub fn upsert_index_from_session_inner(
        &mut self,
        entry: SessionIndexEntry,
        preserve_newer: bool,
    )
        ensures
            final(self)@ == (SessionsIndexView {
                sessions: upserted(old(self)@.sessions, entry@.id, entry@, preserve_newer),
                ..old(self)@
            }),
    {
        let ghost original = self@;
        let id = entry.id.clone();
        let keep = if preserve_newer {
            match self.sessions.get(&id) {
                Some(existing) => entry.updated_at.is_before(existing.updated_at),
                None => false,
            }
        } else {
            false
        };
        let ghost put = entry@;
        if keep {
            match self.sessions.remove(&id) {
                Some(existing) => {
                    let fixed = SessionIndexEntry {
                        id: entry.id,
                        kind: entry.kind,
                        rel_path: entry.rel_path,
                        parent_session_id: entry.parent_session_id,
                        root_session_id: entry.root_session_id,
                        spawn_depth: entry.spawn_depth,
                        ..existing
                    };
                    assert(fixed@ =~= replaced(original.sessions[put.id], put));
                    self.sessions.insert(id, fixed);
                    assert(self@.sessions =~= original.sessions.insert(put.id, fixed@));
                },
                None => {},
            }
        } else {
            self.sessions.insert(id, entry);
            assert(self@.sessions =~= original.sessions.insert(put.id, put));
        }
        assert(self@ =~= (SessionsIndexView {
            sessions: upserted(original.sessions, put.id, put, preserve_newer),
            ..original
        }));
    }

    /// Takes a session out of the index.
    pub fn remove(&mut self, session_id: &str)
        ensures
            final(self)@ == (SessionsIndexView {
                sessions: old(self)@.sessions.remove(session_id@),
                ..old(self)@
            }),
    {
        let ghost original = self@;
        let _ = self.sessions.remove(session_id);
        assert(self@.sessions =~= original.sessions.remove(session_id@));
        assert(self@ =~= (SessionsIndexView {
            sessions: original.sessions.remove(session_id@),
            ..original
        }));
    }

    /// Whether a runtime save changes what the index says of the session's workspace or
    /// Project.
    pub fn runtime_index_changed(
        &self,
        session_id: &str,
        workspace: &Option<String>,
        project: &Option<String>,
    ) -> (r: bool)
        ensures
            r == (self@.sessions.contains_key(session_id@) && (
            self@.sessions[session_id@].workspace_path != session::opt_text(*workspace)
                || self@.sessions[session_id@].project_id != session::opt_text(*project))),
    {
        match self.sessions.get(session_id) {
            Some(e) => !same_option_text(&e.workspace_path, workspace) || !same_option_text(
                &e.project_id,
                project,
            ),
            None => false,
        }
    }

    /// Puts the workspace and Project of a runtime save into the entry of its session.
    pub fn set_ownership(
        &mut self,
        session_id: &str,
        workspace: Option<String>,
        project: Option<String>,
    )
        ensures
            final(self)@ == owned_by(
                old(self)@,
                session_id@,
                session::opt_text(workspace),
                session::opt_text(project),
            ),
    {
        let ghost original = self@;
        match self.sessions.remove(session_id) {
            Some(existing) => {
                let fixed = SessionIndexEntry {
                    workspace_path: workspace,
                    project_id: project,
                    ..existing
                };
                let ghost wanted = SessionIndexEntryView {
                    workspace_path: session::opt_text(workspace),
                    project_id: session::opt_text(project),
                    ..original.sessions[session_id@]
                };
                assert(fixed@ =~= wanted);
                self.sessions.insert(session_id.to_owned(), fixed);
                assert(self@.sessions =~= original.sessions.insert(session_id@, wanted));
                assert(self@ =~= (SessionsIndexView {
                    sessions: original.sessions.insert(session_id@, wanted),
                    ..original
                }));
            },
            None => {
                assert(self@.sessions =~= original.sessions);
                assert(self@ =~= original);
            },
        }
    }

    /// Ends a rebuild: the current version commits it.
    pub fn finish_rebuild(&mut self)
        ensures
            final(self)@ == rebuilt(old(self)@),
    {
        self.version = SESSIONS_INDEX_VERSION;
        self.rebuild_in_progress = false;
    }
}

// -------------------------------------------------------------------------- opening

/// What reading the index file gave.
pub enum IndexFile {
    Missing,
    Failed(StorageError),
    /// The file does not hold an index; the text says why.
    Corrupt(String),
    Parsed(SessionsIndex),
}

/// How the store opens its index.
pub struct OpenedIndex {
    pub index: SessionsIndex,
    /// Whether the index has to be rebuilt from the sessions on disk.
    pub needs_rebuild: bool,
    /// Whether the index is written out at once.
    pub publish: bool,
    /// Whether the file that was there is kept aside as a backup.
    pub back_up: bool,
}

/// What an [`OpenedIndex`] holds.
#[verifier::ext_equal]
pub struct OpenedIndexView {
    pub index: SessionsIndexView,
    pub needs_rebuild: bool,
    pub publish: bool,
    pub back_up: bool,
}

impl View for OpenedIndex {
    type V = OpenedIndexView;

    open spec fn view(&self) -> OpenedIndexView {
        OpenedIndexView {
            index: self.index@,
            needs_rebuild: self.needs_rebuild,
            publish: self.publish,
            back_up: self.back_up,
        }
    }
}

/// The index that a rebuild starts from: empty, and marked with an old version.
pub open spec fn rebuild_marker(version: u32, now: Timestamp) -> SessionsIndexView {
    SessionsIndexView {
        version: if version < SESSIONS_INDEX_VERSION {
            version
        } else {
            (SESSIONS_INDEX_VERSION - 1) as u32
        },
        rebuild_in_progress: true,
        ..empty_index(now)
    }
}

/// How the store opens its index: a missing one begins empty, a current one is taken, an old or
/// damaged one is rebuilt, and a rebuild that was cut short goes on where it was.
pub open spec fn opened(f: IndexFile, now: Timestamp) -> Result<OpenedIndexView, ErrorView> {
    match f {
        IndexFile::Failed(e) => Err(e@),
        IndexFile::Missing => Ok(
            OpenedIndexView {
                index: empty_index(now),
                needs_rebuild: false,
                publish: true,
                back_up: false,
            },
        ),
        IndexFile::Corrupt(_) => Ok(
            OpenedIndexView {
                index: rebuild_marker(0, now),
                needs_rebuild: true,
                publish: true,
                back_up: true,
            },
        ),
        IndexFile::Parsed(i) => if i@.version >= SESSIONS_INDEX_VERSION {
            Ok(
                OpenedIndexView {
                    index: i@,
                    needs_rebuild: false,
                    publish: false,
                    back_up: false,
                },
            )
        } else if i@.rebuild_in_progress {
            Ok(
                OpenedIndexView {
                    index: i@,
                    needs_rebuild: true,
                    publish: false,
                    back_up: false,
                },
            )
        } else {
            Ok(
                OpenedIndexView {
                    index: rebuild_marker(i@.version, now),
                    needs_rebuild: true,
                    publish: true,
                    back_up: false,
                },
            )
        },
    }
}

fn rebuilding(version: u32, now: Timestamp) -> (r: SessionsIndex)
    ensures
        r@ == rebuild_marker(version, now),
{
    let mut r = SessionsIndex::empty(now);
    r.version = if version < SESSIONS_INDEX_VERSION {
        version
    } else {
        SESSIONS_INDEX_VERSION - 1
    };
    r.rebuild_in_progress = true;
    assert(r@ =~= rebuild_marker(version, now));
    r
}

/// Decides how the store opens its index.
pub fn open_index(file: IndexFile, now: Timestamp) -> (r: Result<OpenedIndex, StorageError>)
    ensures
        crate::error::result_view(r) == opened(file, now),
{
    match file {
        IndexFile::Failed(e) => Err(e),
        IndexFile::Missing => Ok(
            OpenedIndex {
                index: SessionsIndex::empty(now),
                needs_rebuild: false,
                publish: true,
                back_up: false,
            },
        ),
        IndexFile::Corrupt(_) => Ok(
            OpenedIndex {
                index: rebuilding(0, now),
                needs_rebuild: true,
                publish: true,
                back_up: true,
            },
        ),
        IndexFile::Parsed(i) => if i.version >= SESSIONS_INDEX_VERSION {
            Ok(OpenedIndex { index: i, needs_rebuild: false, publish: false, back_up: false })
        } else if i.rebuild_in_progress {
            Ok(OpenedIndex { index: i, needs_rebuild: true, publish: false, back_up: false })
        } else {
            Ok(
                OpenedIndex {
                    index: rebuilding(i.version, now),
                    needs_rebuild: true,
                    publish: true,
                    back_up: false,
                },
            )
        },
    }
}

/// The index that a change starts from: the one on disk, since other processes write it too.
pub open spec fn rebased(memory: SessionsIndexView, disk: IndexFile) -> Result<
    SessionsIndexView,
    ErrorView,
> {
    match disk {
        IndexFile::Parsed(i) => Ok(i@),
        IndexFile::Corrupt(t) => if memory.version < SESSIONS_INDEX_VERSION {
            Ok(memory)
        } else {
            Err(
                error::plain_error(
                    ErrorKind::Other,
                    "invalid sessions.json during locked update: "@ + t@,
                ),
            )
        },
        IndexFile::Missing => Ok(memory),
        IndexFile::Failed(e) => Err(e@),
    }
}

/// Takes the index that a change starts from.
pub fn update_index_under_claim(memory: &SessionsIndex, disk: IndexFile) -> (r: Result<
    SessionsIndex,
    StorageError,
>)
    ensures
        crate::error::result_view(r) == rebased(memory@, disk),
{
    match disk {
        IndexFile::Parsed(i) => Ok(i),
        IndexFile::Corrupt(t) => if memory.version < SESSIONS_INDEX_VERSION {
            Ok(memory.duplicate())
        } else {
            Err(other_io_error(&join2("invalid sessions.json during locked update: ", &t)))
        },
        IndexFile::Missing => Ok(memory.duplicate()),
        IndexFile::Failed(e) => Err(e),
    }
}

// ------------------------------------------------------------------------- listings

/// What the index says of each session, in the order of its pairs.
pub open spec fn values(m: StrMap<SessionIndexEntry>) -> Seq<SessionIndexEntryView> {
    m.pairs().map_values(|p: (String, SessionIndexEntry)| p.1@)
}

/// Whether no entry was updated later than one that stands before it.
pub open spec fn latest_first(s: Seq<SessionIndexEntryView>) -> bool {
    forall|i: int, j: int|
        0 <= i < j < s.len() ==> !time::before((#[trigger] s[i]).updated_at, (#[trigger] s[j]).updated_at)
}

impl SessionsIndex {
    /// All entries, the latest updated first.
    pub fn list_index_entries(&self) -> (r: Vec<SessionIndexEntry>)
        ensures
            latest_first(crate::session::views(r@)),
            crate::session::views(r@).to_multiset() == values(self.sessions).to_multiset(),
    {
        let n: usize = self.sessions.len();
        let mut out: Vec<SessionIndexEntry> = Vec::new();
        let mut i: usize = 0;
        let ghost all = values(self.sessions);
        assert(all.take(0) =~= crate::session::views(out@));
        while i < n
            invariant
                i <= n,
                n == self.sessions.pairs().len(),
                all == values(self.sessions),
                latest_first(crate::session::views(out@)),
                crate::session::views(out@).to_multiset() == all.take(i as int).to_multiset(),
            decreases n - i,
        {
            let item = self.sessions.value_at(i).duplicate();
            let mut k: usize = out.len();
            while k > 0 && out[k - 1].updated_at.is_before(item.updated_at)
                invariant
                    k <= out.len(),
                    forall|j: int|
                        k <= j < out.len() ==> time::before((#[trigger] out@[j]).updated_at, item.updated_at),
                decreases k,
            {
                k = k - 1;
            }
            let ghost earlier = crate::session::views(out@);
            proof {
                assert forall|j: int| 0 <= j < k implies !time::before(
                    (#[trigger] earlier[j]).updated_at,
                    item@.updated_at,
                ) by {
                    if j < k - 1 {
                        assert(!time::before(earlier[j].updated_at, earlier[k - 1].updated_at));
                    }
                }
                assert forall|j: int| k <= j < earlier.len() implies time::before(
                    (#[trigger] earlier[j]).updated_at,
                    item@.updated_at,
                ) by {
                    assert(out@[j].updated_at == earlier[j].updated_at);
                }
            }
            out.insert(k, item);
            proof {
                let now = crate::session::views(out@);
                earlier.to_multiset_ensures();
                broadcast use vstd::seq_lib::group_to_multiset_ensures;
                assert(now =~= earlier.insert(k as int, item@));
                assert forall|a: int, b: int| 0 <= a < b < now.len() implies !time::before(
                    (#[trigger] now[a]).updated_at,
                    (#[trigger] now[b]).updated_at,
                ) by {
                    if a == k {
                        assert(time::before(earlier[b - 1].updated_at, item@.updated_at));
                    } else if b == k {
                        assert(!time::before(earlier[a].updated_at, item@.updated_at));
                    } else {
                        let x = if a < k { a } else { a - 1 };
                        let y = if b < k { b } else { b - 1 };
                        assert(!time::before(earlier[x].updated_at, earlier[y].updated_at));
                    }
                }
                assert(all.take(i + 1) =~= all.take(i as int).push(all[i as int]));
            }
            i = i + 1;
        }
        assert(all.take(all.len() as int) =~= all);
        out
    }

    /// The ids of a session's children with the last status of each.
    pub fn list_child_run_statuses(&self, parent_session_id: &str) -> (r: Vec<
        (String, Option<String>),
    >)
        ensures
            r@.map_values(|p: (String, Option<String>)| (p.0@, session::opt_text(p.1))) == child_statuses(
                values(self.sessions),
                parent_session_id@,
            ),
    {
        let n: usize = self.sessions.len();
        let mut out: Vec<(String, Option<String>)> = Vec::new();
        let mut i: usize = 0;
        let ghost all = values(self.sessions);
        let ghost f = |p: (String, Option<String>)| (p.0@, session::opt_text(p.1));
        assert(all.take(0) =~= Seq::<SessionIndexEntryView>::empty());
        assert(out@.map_values(f) =~= child_statuses(all.take(0), parent_session_id@));
        while i < n
            invariant
                i <= n,
                n == self.sessions.pairs().len(),
                all == values(self.sessions),
                f == (|p: (String, Option<String>)| (p.0@, session::opt_text(p.1))),
                out@.map_values(f) == child_statuses(all.take(i as int), parent_session_id@),
            decreases n - i,
        {
            let e = self.sessions.value_at(i);
            assert(all.take(i + 1).drop_last() =~= all.take(i as int));
            assert(all.take(i + 1).last() == e@);
            let wanted = e.kind == SessionKind::Child && match &e.parent_session_id {
                Some(p) => same_text(p, parent_session_id),
                None => false,
            };
            if wanted {
                let ghost earlier = out@;
                out.push((e.id.clone(), clone_opt(&e.last_run_status)));
                assert(out@.map_values(f) =~= earlier.map_values(f).push((e@.id, e@.last_run_status)));
            }
            i = i + 1;
        }
        assert(all.take(all.len() as int) =~= all);
        out
    }

    /// The ids of the sessions with a status, with the parent of each.
    pub fn list_sessions_by_run_status(&self, status: &str) -> (r: Vec<(String, Option<String>)>)
        ensures
            r@.map_values(|p: (String, Option<String>)| (p.0@, session::opt_text(p.1))) == with_status(
                values(self.sessions),
                status@,
            ),
    {
        let n: usize = self.sessions.len();
        let mut out: Vec<(String, Option<String>)> = Vec::new();
        let mut i: usize = 0;
        let ghost all = values(self.sessions);
        let ghost f = |p: (String, Option<String>)| (p.0@, session::opt_text(p.1));
        assert(all.take(0) =~= Seq::<SessionIndexEntryView>::empty());
        assert(out@.map_values(f) =~= with_status(all.take(0), status@));
        while i < n
            invariant
                i <= n,
                n == self.sessions.pairs().len(),
                all == values(self.sessions),
                f == (|p: (String, Option<String>)| (p.0@, session::opt_text(p.1))),
                out@.map_values(f) == with_status(all.take(i as int), status@),
            decreases n - i,
        {
            let e = self.sessions.value_at(i);
            assert(all.take(i + 1).drop_last() =~= all.take(i as int));
            assert(all.take(i + 1).last() == e@);
            let wanted = match &e.last_run_status {
                Some(s) => same_text(s, status),
                None => false,
            };
            if wanted {
                let ghost earlier = out@;
                out.push((e.id.clone(), clone_opt(&e.parent_session_id)));
                assert(out@.map_values(f) =~= earlier.map_values(f).push(
                    (e@.id, e@.parent_session_id),
                ));
            }
            i = i + 1;
        }
        assert(all.take(all.len() as int) =~= all);
        out
    }
}

/// The ids of a session's children with the last status of each.
pub open spec fn child_statuses(
    s: Seq<SessionIndexEntryView>,
    parent: Seq<char>,
) -> Seq<(Seq<char>, Option<Seq<char>>)>
    decreases s.len(),
{
    if s.len() == 0 {
        Seq::empty()
    } else {
        let head = child_statuses(s.drop_last(), parent);
        let e = s.last();
        if e.kind == SessionKind::Child && e.parent_session_id == Some(parent) {
            head.push((e.id, e.last_run_status))
        } else {
            head
        }
    }
}

/// The ids of the sessions with a status, with the parent of each.
pub open spec fn with_status(
    s: Seq<SessionIndexEntryView>,
    status: Seq<char>,
) -> Seq<(Seq<char>, Option<Seq<char>>)>
    decreases s.len(),
{
    if s.len() == 0 {
        Seq::empty()
    } else {
        let head = with_status(s.drop_last(), status);
        let e = s.last();
        if e.last_run_status == Some(status) {
            head.push((e.id, e.parent_session_id))
        } else {
            head
        }
    }
}

// ------------------------------------------------------------------------------ laws

/// Repairing an entry never takes back a newer summary: afterwards the session is at its
/// canonical place, the time of its last update has not gone back, and every other entry is as it
/// was.
pub proof fn repair_never_takes_a_newer_summary_back(
    m: Map<Seq<char>, SessionIndexEntryView>,
    entry: SessionIndexEntryView,
)
    ensures
        ({
            let after = upserted(m, entry.id, entry, true);
            &&& after.contains_key(entry.id)
            &&& after[entry.id].rel_path == entry.rel_path
            &&& after[entry.id].kind == entry.kind
            &&& after[entry.id].root_session_id == entry.root_session_id
            &&& m.contains_key(entry.id) ==> !time::before(
                after[entry.id].updated_at,
                m[entry.id].updated_at,
            )
            &&& !time::before(after[entry.id].updated_at, entry.updated_at)
            &&& m.contains_key(entry.id) && time::before(entry.updated_at, m[entry.id].updated_at)
                ==> after[entry.id].title == m[entry.id].title
            &&& forall|k: Seq<char>|
                k != entry.id ==> (#[trigger] after.contains_key(k) == m.contains_key(k)) && (
                m.contains_key(k) ==> after[k] == m[k])
        }),
{
}

/// Repairing twice with the same session changes nothing more.
pub proof fn repair_is_idempotent(
    m: Map<Seq<char>, SessionIndexEntryView>,
    entry: SessionIndexEntryView,
)
    ensures
        upserted(upserted(m, entry.id, entry, true), entry.id, entry, true) == upserted(
            m,
            entry.id,
            entry,
            true,
        ),
{
    let once = upserted(m, entry.id, entry, true);
    assert(upserted(once, entry.id, entry, true) =~= once);
}

/// A damaged, missing or old index never stops the store from opening, and an index that is not
/// current is always rebuilt before it counts as current.
pub proof fn a_bad_index_is_never_fatal(f: IndexFile, now: Timestamp)
    requires
        !(f is Failed),
    ensures
        opened(f, now) is Ok,
        opened(f, now)->Ok_0.needs_rebuild <==> opened(f, now)->Ok_0.index.version
            < SESSIONS_INDEX_VERSION,
        opened(f, now)->Ok_0.needs_rebuild ==> opened(f, now)->Ok_0.index.rebuild_in_progress,
        f is Parsed && f->Parsed_0@.version < SESSIONS_INDEX_VERSION
            && f->Parsed_0@.rebuild_in_progress ==> opened(f, now)->Ok_0.index == f->Parsed_0@,
{
}

/// A row of the index says of a session what the session holds: its identity, title, model and
/// times as they are, how many messages there are and whether a question waits, its workspace
/// without the white space around it, its Project as parsed, and each text of its metadata unless
/// that is blank.
pub proof fn a_row_says_what_the_session_holds(
    s: SessionView,
    rel_path: Seq<char>,
    has_attachments: bool,
    placement: Option<SessionPlacementView>,
    project: Option<Seq<char>>,
)
    ensures
        ({
            let e = entry_of(s, rel_path, has_attachments, placement, project);
            &&& e.id == s.id && e.kind == s.kind && e.title == s.title && e.title_version == s.title_version && e.title_generated == s.title_generated && e.pinned == s.pinned && e.parent_session_id == s.parent_session_id && e.root_session_id == s.root_session_id && e.spawn_depth == s.spawn_depth && e.model == s.model && e.model_ref == s.model_ref && e.reasoning_effort == s.reasoning_effort && e.created_at == s.created_at && e.updated_at == s.updated_at && e.token_usage == s.token_usage
            &&& e.rel_path == rel_path && e.has_attachments == has_attachments
            &&& e.last_activity_at == s.updated_at
            &&& s.messages.len() <= usize::MAX ==> e.message_count == s.messages.len()
            &&& e.has_pending_question <==> s.pending_question is Some
            &&& s.agent_runtime_state is Some ==> e.plan_mode == s.agent_runtime_state->0.plan_mode
                && e.permission_mode == s.agent_runtime_state->0.permission_mode
            &&& s.agent_runtime_state is None ==> e.plan_mode is None && e.permission_mode
                == SessionPermissionMode::Default
            &&& e.bypass_permissions <==> e.permission_mode != SessionPermissionMode::Default
            &&& s.workspace() is Some && text::trimmed(s.workspace()->0).len() > 0
                ==> e.workspace_path == Some(text::trimmed(s.workspace()->0))
            &&& s.workspace() is None || text::trimmed(s.workspace()->0).len() == 0
                ==> e.workspace_path is None
            &&& s.project() is Some ==> e.project_id == project
            &&& s.project() is None ==> e.project_id is None
            &&& s.metadata.contains_key("placement"@) ==> e.placement == placement
            &&& !s.metadata.contains_key("placement"@) ==> e.placement is None
            &&& s.run_status() is Some && text::trimmed(s.run_status()->0).len() > 0 ==> e.last_run_status == s.run_status()
            &&& s.run_status() is None || text::trimmed(s.run_status()->0).len() == 0 ==> e.last_run_status is None
            &&& s.run_error() is Some && text::trimmed(s.run_error()->0).len() > 0 ==> e.last_run_error == s.run_error()
            &&& s.run_error() is None || text::trimmed(s.run_error()->0).len() == 0 ==> e.last_run_error is None
            &&& s.profile() is Some && text::trimmed(s.profile()->0).len() > 0 ==> e.subagent_type == s.profile()
            &&& s.profile() is None || text::trimmed(s.profile()->0).len() == 0 ==> e.subagent_type is None
            &&& s.metadata.contains_key("gold_config"@) && text::trimmed(s.metadata["gold_config"@]).len() > 0
                ==> e.gold_config_json == Some(s.metadata["gold_config"@])
            &&& !s.metadata.contains_key("gold_config"@) || text::trimmed(s.metadata["gold_config"@]).len() == 0
                ==> e.gold_config_json is None
            &&& s.metadata.contains_key("created_by_schedule_id"@) && text::trimmed(s.metadata["created_by_schedule_id"@]).len() > 0
                ==> e.created_by_schedule_id == Some(s.metadata["created_by_schedule_id"@])
            &&& !s.metadata.contains_key("created_by_schedule_id"@) || text::trimmed(s.metadata["created_by_schedule_id"@]).len() == 0
                ==> e.created_by_schedule_id is None
            &&& s.metadata.contains_key("schedule_run_id"@) && text::trimmed(s.metadata["schedule_run_id"@]).len() > 0
                ==> e.schedule_run_id == Some(s.metadata["schedule_run_id"@])
            &&& !s.metadata.contains_key("schedule_run_id"@) || text::trimmed(s.metadata["schedule_run_id"@]).len() == 0
                ==> e.schedule_run_id is None
            &&& s.metadata.contains_key("lifecycle"@) && text::trimmed(s.metadata["lifecycle"@]).len() > 0
                ==> e.lifecycle == Some(s.metadata["lifecycle"@])
            &&& !s.metadata.contains_key("lifecycle"@) || text::trimmed(s.metadata["lifecycle"@]).len() == 0
                ==> e.lifecycle is None
            &&& s.metadata.contains_key("resident_name"@) && text::trimmed(s.metadata["resident_name"@]).len() > 0
                ==> e.resident_name == Some(s.metadata["resident_name"@])
            &&& !s.metadata.contains_key("resident_name"@) || text::trimmed(s.metadata["resident_name"@]).len() == 0
                ==> e.resident_name is None
        }),
{
}

/// The Project parser is given the text of a session's Project without the white space around it.
pub proof fn a_project_is_parsed_trimmed(s: SessionView)
    ensures
        s.project() is None <==> project_text(s) is None,
        s.project() is Some ==> project_text(s) == Some(text::trimmed(s.project()->0)),
{
}

/// Putting a row in makes it the session's row, whatever was there, unless a newer one is to be
/// kept: then the newer one keeps all of its summary and takes over the identity and the place.
/// Every other row stays.
pub proof fn a_row_is_put_in(
    m: Map<Seq<char>, SessionIndexEntryView>,
    entry: SessionIndexEntryView,
    preserve_newer: bool,
)
    ensures
        ({
            let after = upserted(m, entry.id, entry, preserve_newer);
            let newer = preserve_newer && m.contains_key(entry.id) && time::before(
                entry.updated_at,
                m[entry.id].updated_at,
            );
            &&& after.contains_key(entry.id)
            &&& !newer ==> after[entry.id] == entry
            &&& newer ==> {
                let r = after[entry.id];
                &&& r.id == entry.id && r.kind == entry.kind && r.rel_path == entry.rel_path
                &&& r.parent_session_id == entry.parent_session_id
                &&& r.root_session_id == entry.root_session_id
                &&& r.spawn_depth == entry.spawn_depth
                &&& (SessionIndexEntryView {
                    id: m[entry.id].id,
                    kind: m[entry.id].kind,
                    rel_path: m[entry.id].rel_path,
                    parent_session_id: m[entry.id].parent_session_id,
                    root_session_id: m[entry.id].root_session_id,
                    spawn_depth: m[entry.id].spawn_depth,
                    ..r
                }) == m[entry.id]
            }
            &&& forall|k: Seq<char>|
                k != entry.id ==> (#[trigger] after.contains_key(k) == m.contains_key(k)) && (
                m.contains_key(k) ==> after[k] == m[k])
        }),
{
}

/// A store without an index begins with an empty one, a current one is taken as it is, a damaged one
/// is kept aside, and an old one is replaced by an empty one that is marked as not current; a
/// rebuild that was cut short keeps the rows that it has found. An index that cannot be read is a
/// failure.
pub proof fn how_an_index_opens(f: IndexFile, now: Timestamp)
    ensures
        f is Failed ==> opened(f, now) is Err,
        f is Missing ==> ({
            let o = opened(f, now)->Ok_0;
            &&& opened(f, now) is Ok && !o.needs_rebuild && o.publish && !o.back_up
            &&& o.index.sessions.dom() =~= Set::empty() && o.index.version >= 1
            &&& !o.index.rebuild_in_progress && o.index.updated_at == now
        }),
        f is Corrupt ==> ({
            let o = opened(f, now)->Ok_0;
            &&& opened(f, now) is Ok && o.needs_rebuild && o.publish && o.back_up
            &&& o.index.sessions.dom() =~= Set::empty() && o.index.rebuild_in_progress
            &&& o.index.version == 0
        }),
        f is Parsed && f->Parsed_0@.version >= SESSIONS_INDEX_VERSION ==> ({
            let o = opened(f, now)->Ok_0;
            &&& opened(f, now) is Ok && !o.needs_rebuild && !o.publish && !o.back_up
            &&& o.index == f->Parsed_0@
        }),
        f is Parsed && f->Parsed_0@.version < SESSIONS_INDEX_VERSION
            && f->Parsed_0@.rebuild_in_progress ==> ({
            let o = opened(f, now)->Ok_0;
            &&& opened(f, now) is Ok && o.needs_rebuild && !o.publish && !o.back_up
            &&& o.index == f->Parsed_0@
        }),
        f is Parsed && f->Parsed_0@.version < SESSIONS_INDEX_VERSION
            && !f->Parsed_0@.rebuild_in_progress ==> ({
            let o = opened(f, now)->Ok_0;
            &&& opened(f, now) is Ok && o.needs_rebuild && o.publish && !o.back_up
            &&& o.index.sessions.dom() =~= Set::empty() && o.index.rebuild_in_progress
            &&& o.index.version == f->Parsed_0@.version
        }),
{
}

/// A change of the index starts from what is on disk, so that it takes no change of another process
/// back; from memory only where nothing is on disk, or where the index is being rebuilt and what is
/// on disk is damaged.
pub proof fn a_change_starts_from_disk(memory: SessionsIndexView, disk: IndexFile)
    ensures
        disk is Parsed ==> rebased(memory, disk) == Ok::<SessionsIndexView, ErrorView>(
            disk->Parsed_0@,
        ),
        disk is Missing ==> rebased(memory, disk) == Ok::<SessionsIndexView, ErrorView>(memory),
        disk is Failed ==> rebased(memory, disk) is Err,
        disk is Corrupt && memory.version < SESSIONS_INDEX_VERSION ==> rebased(memory, disk)
            == Ok::<SessionsIndexView, ErrorView>(memory),
        disk is Corrupt && memory.version >= SESSIONS_INDEX_VERSION ==> rebased(memory, disk) is Err,
{
}

/// The children of a session are listed with the status that each has, and no other session is.
pub proof fn every_child_is_listed(
    s: Seq<SessionIndexEntryView>,
    parent: Seq<char>,
    p: (Seq<char>, Option<Seq<char>>),
)
    ensures
        child_statuses(s, parent).contains(p) <==> exists|i: int|
            0 <= i < s.len() && (#[trigger] s[i]).kind == SessionKind::Child
                && s[i].parent_session_id == Some(parent) && p == (s[i].id, s[i].last_run_status),
        child_statuses(s, parent).len() <= s.len(),
    decreases s.len(),
{
    if s.len() > 0 {
        let head = s.drop_last();
        every_child_is_listed(head, parent, p);
        let all = child_statuses(s, parent);
        let before = child_statuses(head, parent);
        if before.contains(p) {
            let i = choose|i: int|
                0 <= i < head.len() && (#[trigger] head[i]).kind == SessionKind::Child
                    && head[i].parent_session_id == Some(parent) && p == (
                    head[i].id,
                    head[i].last_run_status,
                );
            assert(s[i] == head[i]);
            let j = choose|j: int| 0 <= j < before.len() && before[j] == p;
            assert(all[j] == p);
        }
        if all.contains(p) && !before.contains(p) {
            let j = choose|j: int| 0 <= j < all.len() && all[j] == p;
            if j < before.len() {
                assert(before[j] == p);
            }
            assert(s[s.len() - 1] == s.last());
        }
        if exists|i: int|
            0 <= i < s.len() && (#[trigger] s[i]).kind == SessionKind::Child
                && s[i].parent_session_id == Some(parent) && p == (s[i].id, s[i].last_run_status) {
            let i = choose|i: int|
                0 <= i < s.len() && (#[trigger] s[i]).kind == SessionKind::Child
                    && s[i].parent_session_id == Some(parent) && p == (
                    s[i].id,
                    s[i].last_run_status,
                );
            if i < head.len() {
                assert(head[i] == s[i]);
            } else {
                assert(all[before.len() as int] == p);
            }
        }
    }
}

/// The sessions with a status are listed with the parent that each has, and no other session is.
pub proof fn every_session_with_a_status_is_listed(
    s: Seq<SessionIndexEntryView>,
    status: Seq<char>,
    p: (Seq<char>, Option<Seq<char>>),
)
    ensures
        with_status(s, status).contains(p) <==> exists|i: int|
            0 <= i < s.len() && (#[trigger] s[i]).last_run_status == Some(status) && p == (
                s[i].id,
                s[i].parent_session_id,
            ),
        with_status(s, status).len() <= s.len(),
    decreases s.len(),
{
    if s.len() > 0 {
        let head = s.drop_last();
        every_session_with_a_status_is_listed(head, status, p);
        let all = with_status(s, status);
        let before = with_status(head, status);
        if before.contains(p) {
            let i = choose|i: int|
                0 <= i < head.len() && (#[trigger] head[i]).last_run_status == Some(status) && p == (
                    head[i].id,
                    head[i].parent_session_id,
                );
            assert(s[i] == head[i]);
            let j = choose|j: int| 0 <= j < before.len() && before[j] == p;
            assert(all[j] == p);
        }
        if all.contains(p) && !before.contains(p) {
            let j = choose|j: int| 0 <= j < all.len() && all[j] == p;
            if j < before.len() {
                assert(before[j] == p);
            }
            assert(s[s.len() - 1] == s.last());
        }
        if exists|i: int|
            0 <= i < s.len() && (#[trigger] s[i]).last_run_status == Some(status) && p == (
                s[i].id,
                s[i].parent_session_id,
            ) {
            let i = choose|i: int|
                0 <= i < s.len() && (#[trigger] s[i]).last_run_status == Some(status) && p == (
                    s[i].id,
                    s[i].parent_session_id,
                );
            if i < head.len() {
                assert(head[i] == s[i]);
            } else {
                assert(all[before.len() as int] == p);
            }
        }
    }
}

/// The rows of an index are what it holds under its ids, and nothing else.
pub proof fn an_index_is_seen_whole(i: SessionsIndex, k: Seq<char>)
    ensures
        i@.version == i.version && i@.updated_at == i.updated_at,
        i@.rebuild_in_progress == i.rebuild_in_progress,
        i@.sessions.contains_key(k) <==> i.sessions@.contains_key(k),
        i.sessions@.contains_key(k) ==> i@.sessions[k].id == i.sessions@[k].id@
            && i@.sessions[k].rel_path == i.sessions@[k].rel_path@ && i@.sessions[k].pinned
            == i.sessions@[k].pinned && i@.sessions[k].title == i.sessions@[k].title@
            && i@.sessions[k].root_session_id == i.sessions@[k].root_session_id@
            && i@.sessions[k].kind == i.sessions@[k].kind && i@.sessions[k].message_count
            == i.sessions@[k].message_count && i@.sessions[k].updated_at
            == i.sessions@[k].updated_at,
{
}

/// What is said of these values is said of their own fields: none is left out or exchanged.
pub proof fn nothing_is_left_unseen(a: SessionPlacement, b: SessionIndexEntry, c: OpenedIndex)
    ensures
        a@.kind == a.kind@ && a@.host == a.host@,
        b@.parent_session_id is Some <==> b.parent_session_id is Some,
        b.parent_session_id is Some ==> b@.parent_session_id->0 == b.parent_session_id->0@,
        b@.model_ref is Some <==> b.model_ref is Some,
        b.model_ref is Some ==> b@.model_ref->0 == b.model_ref->0@,
        b@.reasoning_effort is Some <==> b.reasoning_effort is Some,
        b.reasoning_effort is Some ==> b@.reasoning_effort->0 == b.reasoning_effort->0@,
        b@.workspace_path is Some <==> b.workspace_path is Some,
        b.workspace_path is Some ==> b@.workspace_path->0 == b.workspace_path->0@,
        b@.project_id is Some <==> b.project_id is Some,
        b.project_id is Some ==> b@.project_id->0 == b.project_id->0@,
        b@.gold_config_json is Some <==> b.gold_config_json is Some,
        b.gold_config_json is Some ==> b@.gold_config_json->0 == b.gold_config_json->0@,
        b@.created_by_schedule_id is Some <==> b.created_by_schedule_id is Some,
        b.created_by_schedule_id is Some ==> b@.created_by_schedule_id->0 == b.created_by_schedule_id->0@,
        b@.schedule_run_id is Some <==> b.schedule_run_id is Some,
        b.schedule_run_id is Some ==> b@.schedule_run_id->0 == b.schedule_run_id->0@,
        b@.plan_mode is Some <==> b.plan_mode is Some,
        b.plan_mode is Some ==> b@.plan_mode->0 == b.plan_mode->0@,
        b@.last_run_status is Some <==> b.last_run_status is Some,
        b.last_run_status is Some ==> b@.last_run_status->0 == b.last_run_status->0@,
        b@.last_run_error is Some <==> b.last_run_error is Some,
        b.last_run_error is Some ==> b@.last_run_error->0 == b.last_run_error->0@,
        b@.token_usage is Some <==> b.token_usage is Some,
        b.token_usage is Some ==> b@.token_usage->0 == b.token_usage->0@,
        b@.subagent_type is Some <==> b.subagent_type is Some,
        b.subagent_type is Some ==> b@.subagent_type->0 == b.subagent_type->0@,
        b@.lifecycle is Some <==> b.lifecycle is Some,
        b.lifecycle is Some ==> b@.lifecycle->0 == b.lifecycle->0@,
        b@.resident_name is Some <==> b.resident_name is Some,
        b.resident_name is Some ==> b@.resident_name->0 == b.resident_name->0@,
        b@.placement is Some <==> b.placement is Some,
        b.placement is Some ==> b@.placement->0 == b.placement->0@,
        b@.id == b.id@ && b@.kind == b.kind,
        b@.rel_path == b.rel_path@ && b@.title == b.title@,
        b@.title_version == b.title_version && b@.title_generated == b.title_generated,
        b@.pinned == b.pinned && b@.root_session_id == b.root_session_id@,
        b@.spawn_depth == b.spawn_depth && b@.model == b.model@,
        b@.created_at == b.created_at && b@.updated_at == b.updated_at,
        b@.last_activity_at == b.last_activity_at && b@.message_count == b.message_count,
        b@.has_attachments == b.has_attachments && b@.has_pending_question == b.has_pending_question,
        b@.bypass_permissions == b.bypass_permissions && b@.permission_mode == b.permission_mode,
        c@.index == c.index@ && c@.needs_rebuild == c.needs_rebuild,
        c@.publish == c.publish && c@.back_up == c.back_up,
{
}

/// The values of an index are its entries; a list is latest first where no entry was updated before a
/// later one; an empty index lists nothing, as of now.
pub proof fn entries_are_seen_whole(
    m: StrMap<SessionIndexEntry>,
    i: int,
    s: Seq<SessionIndexEntryView>,
    j: int,
    k: int,
    now: Timestamp,
    id: Seq<char>,
)
    ensures
        values(m).len() == m.pairs().len(),
        0 <= i < m.pairs().len() ==> ({
            let (key, entry) = m.pairs()[i];
            values(m)[i] == entry@
        }),
        entry_map(m).contains_key(id) <==> m@.contains_key(id),
        m@.contains_key(id) ==> entry_map(m)[id] == m@[id]@,
        latest_first(s) && 0 <= j < k < s.len() ==> !time::before(s[j].updated_at, s[k].updated_at),
        !empty_index(now).sessions.contains_key(id),
        empty_index(now).updated_at == now && !empty_index(now).rebuild_in_progress,
        empty_index(now).version == 4,
{
}

/// Setting the owner of a session changes its workspace and its Project alone, and only where the
/// index lists it; the end of a rebuild leaves the entries alone.
pub proof fn ownership_is_set_narrowly(
    index: SessionsIndexView,
    id: Seq<char>,
    workspace: Option<Seq<char>>,
    project: Option<Seq<char>>,
    k: Seq<char>,
)
    ensures
        ({
            let r = owned_by(index, id, workspace, project);
            &&& r.sessions.contains_key(k) <==> index.sessions.contains_key(k)
            &&& k != id && index.sessions.contains_key(k) ==> r.sessions[k] == index.sessions[k]
            &&& index.sessions.contains_key(id) ==> r.sessions[id].workspace_path == workspace
                && r.sessions[id].project_id == project
            &&& index.sessions.contains_key(id) ==> (SessionIndexEntryView {
                workspace_path: index.sessions[id].workspace_path,
                project_id: index.sessions[id].project_id,
                ..r.sessions[id]
            }) == index.sessions[id]
            &&& (SessionsIndexView { sessions: index.sessions, ..r }) == index
        }),
        rebuilt(index).sessions == index.sessions && rebuilt(index).updated_at == index.updated_at,
        rebuilt(index).version == 4 && !rebuilt(index).rebuild_in_progress,
{
}

/// A damaged index file stops a change of an index of the current version, with no special kind, and
/// is taken over by one of an older version; a failure of the disk is answered as it is.
pub proof fn how_a_damaged_index_stops_a_change(
    memory: SessionsIndexView,
    t: String,
    e: StorageError,
)
    ensures
        memory.version < 4 ==> rebased(memory, IndexFile::Corrupt(t)) == Ok::<
            SessionsIndexView,
            ErrorView,
        >(memory),
        memory.version >= 4 ==> rebased(memory, IndexFile::Corrupt(t)) is Err && rebased(
            memory,
            IndexFile::Corrupt(t),
        )->Err_0.kind == ErrorKind::Other,
        rebased(memory, IndexFile::Failed(e)) == Err::<SessionsIndexView, ErrorView>(e@),
        rebased(memory, IndexFile::Missing) == Ok::<SessionsIndexView, ErrorView>(memory),
{
}

} // verus!
