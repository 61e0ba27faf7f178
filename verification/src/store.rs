//! The store: its paths, its index, its search queue and its telemetry.
use crate::attachments::{append_token_usage_record, read_attachment, session_write_lock_path};
use crate::attachments;
use crate::cleanup::{cleanup, dev_reset, CleanupMode, CleanupPlan, Removal};
use crate::cleanup;
use crate::deletion::Deletion;
use crate::deletion;
use crate::error::StorageError;
use crate::error;
use crate::index::{SessionIndexEntry, SessionsIndex};
use crate::index;
use crate::metrics::{MetricsView, SessionPersistenceMetrics, SessionPersistenceMetricsSnapshot};
use crate::outside;
use crate::paths::{child_rel_path, root_rel_path, RUNTIME_SIDECAR_FILE, SESSION_FILE};
use crate::paths;
use crate::search_queue::SearchIndexQueue;
use crate::session;
use crate::task_protocol;
use crate::text::join3;
use crate::text;
use crate::time::Timestamp;
use vstd::prelude::*;

verus! {

/// A store of sessions, one directory for each, under a home directory.
pub struct SessionStoreV2 {
    pub home: String,
    pub index: SessionsIndex,
    pub search_index_queue: SearchIndexQueue,
    pub metrics: SessionPersistenceMetrics,
    /// Whether an unfinished Task commit has to be recovered before sidecars are used.
    pub runtime_task_recovery_required: bool,
}

/// A path under a directory.
pub open spec fn under(directory: Seq<char>, rel: Seq<char>) -> Seq<char> {
    directory + "/"@ + rel
}

impl SessionStoreV2 {
    /// Whether the telemetry is bounded and the search queue in order.
    pub open spec fn well_formed(self) -> bool {
        self.metrics@.bounded() && self.search_index_queue@.well_formed()
    }

    /// The directory of a session that the index knows.
    pub open spec fn place_of(self, session_id: Seq<char>) -> Option<Seq<char>> {
        if self.index@.sessions.contains_key(session_id) {
            Some(under(self.home@, self.index@.sessions[session_id].rel_path))
        } else {
            None
        }
    }

    /// A store over an opened index.
    pub fn new(home: String, index: SessionsIndex) -> (r: SessionStoreV2)
        ensures
            r.home == home,
            r.index == index,
            r.search_index_queue@ == crate::search_queue::empty_queue(),
            r.metrics@ == crate::metrics::no_metrics(),
            !r.runtime_task_recovery_required,
            r.well_formed(),
    {
        SessionStoreV2 {
            home,
            index,
            search_index_queue: SearchIndexQueue::new(),
            metrics: SessionPersistenceMetrics::default(),
            runtime_task_recovery_required: false,
        }
    }

    /// The home directory.
    pub fn bamboo_home_dir(&self) -> (r: &str)
        ensures
            r@ == self.home@,
    {
        self.home.as_str()
    }

    /// The file of the index.
    pub fn index_path(&self) -> (r: String)
        ensures
            r@ == under(self.home@, "sessions.json"@),
    {
        join3(&self.home, "/", "sessions.json")
    }

    /// The directory of all sessions.
    pub fn sessions_root_dir(&self) -> (r: String)
        ensures
            r@ == under(self.home@, "sessions"@),
    {
        join3(&self.home, "/", "sessions")
    }

    /// Directory of a root session, relative to the home directory.
    pub fn root_rel_path(session_id: &str) -> (r: String)
        ensures
            r@ == paths::root_path(session_id@),
    {
        root_rel_path(session_id)
    }

    /// Directory of a child session, relative to the home directory.
    pub fn child_rel_path(root_id: &str, child_id: &str) -> (r: String)
        ensures
            r@ == paths::child_path(root_id@, child_id@),
    {
        child_rel_path(root_id, child_id)
    }

    /// A path from one relative to the home directory.
    pub fn abs_path_from_rel(&self, rel: &str) -> (r: String)
        ensures
            r@ == under(self.home@, rel@),
    {
        join3(&self.home, "/", rel)
    }

    /// All entries of the index, the latest updated first.
    pub fn list_index_entries(&self) -> (r: Vec<SessionIndexEntry>)
        ensures
            crate::index::latest_first(session::views(r@)),
            session::views(r@).to_multiset() == index::values(self.index.sessions).to_multiset(),
    {
        self.index.list_index_entries()
    }

    /// The entry of a session.
    pub fn get_index_entry(&self, session_id: &str) -> (r: Option<SessionIndexEntry>)
        ensures
            session::opt_view(r) == if self.index@.sessions.contains_key(session_id@) {
                Some(self.index@.sessions[session_id@])
            } else {
                None
            },
    {
        self.index.get_index_entry(session_id)
    }

    /// The directory of a session, relative to the home directory.
    pub fn resolve_rel_path(&self, session_id: &str) -> (r: Option<String>)
        ensures
            session::opt_text(r) == if self.index@.sessions.contains_key(session_id@) {
                Some(self.index@.sessions[session_id@].rel_path)
            } else {
                None
            },
    {
        self.index.resolve_rel_path(session_id)
    }

    fn file_of(&self, session_id: &str, file: &str) -> (r: Option<String>)
        ensures
            session::opt_text(r) == match self.place_of(session_id@) {
                Some(p) => Some(under(p, file@)),
                None => None,
            },
    {
        match self.index.resolve_rel_path(session_id) {
            Some(rel) => Some(join3(&self.abs_path_from_rel(&rel), "/", file)),
            None => None,
        }
    }

    /// The session file of a session that the index knows.
    pub fn session_json_path(&self, session_id: &str) -> (r: Option<String>)
        ensures
            session::opt_text(r) == match self.place_of(session_id@) {
                Some(p) => Some(under(p, SESSION_FILE@)),
                None => None,
            },
    {
        self.file_of(session_id, SESSION_FILE)
    }

    /// The runtime sidecar of a session that the index knows.
    pub fn runtime_json_path(&self, session_id: &str) -> (r: Option<String>)
        ensures
            session::opt_text(r) == match self.place_of(session_id@) {
                Some(p) => Some(under(p, RUNTIME_SIDECAR_FILE@)),
                None => None,
            },
    {
        self.file_of(session_id, RUNTIME_SIDECAR_FILE)
    }

    /// The directory of the attachments of a session that the index knows.
    pub fn attachments_dir(&self, session_id: &str) -> (r: Option<String>)
        ensures
            session::opt_text(r) == match self.place_of(session_id@) {
                Some(p) => Some(under(p, "attachments"@)),
                None => None,
            },
    {
        self.file_of(session_id, "attachments")
    }

    /// The directory of the journals of Task commits.
    pub fn runtime_task_transaction_dir(&self) -> (r: String)
        ensures
            r@ == under(self.home@, ".runtime-task-transactions"@),
    {
        join3(&self.home, "/", ".runtime-task-transactions")
    }

    /// The directory of the journals of copies.
    pub fn session_copy_transaction_dir(&self) -> (r: String)
        ensures
            r@ == under(self.home@, ".session-copy-transactions"@),
    {
        join3(&self.home, "/", ".session-copy-transactions")
    }

    /// The file that serializes the writers of a session across processes.
    pub fn session_write_lock_path(&self, session_id: &str) -> (r: String)
        ensures
            r@ == under(
                self.home@,
                ".session-write-locks/"@ + attachments::hex_of(outside::sha256_of(session_id@)) + ".lock"@,
            ),
    {
        join3(&self.home, "/", &session_write_lock_path(session_id))
    }

    /// What the telemetry comes to.
    pub fn persistence_metrics(&self) -> (r: SessionPersistenceMetricsSnapshot)
        requires
            self.well_formed(),
        ensures
            r.full_save == self.metrics@.full_save.snapshot(),
            r.runtime_save == self.metrics@.runtime_save.snapshot(),
            r.index_lock_wait == self.metrics@.index_lock_wait.snapshot(),
            r.index_lock_hold == self.metrics@.index_lock_hold.snapshot(),
            r.search_index == self.metrics@.search_index.snapshot(),
            r.create_latency == self.metrics@.create_latency.snapshot(),
            r.waiting_saves == self.metrics@.waiting_saves,
            r.active_saves == self.metrics@.active_saves,
            r.pending_search_jobs == self.search_index_queue@.pending.dom().len(),
            r.active_search_jobs == self.search_index_queue@.in_flight,
    {
        self.metrics.snapshot(
            self.search_index_queue.pending_len(),
            self.search_index_queue.in_flight,
        )
    }

    /// Records how long creating a session took, in milliseconds.
    pub fn record_session_create_latency(&mut self, millis: u128)
        requires
            old(self).well_formed(),
        ensures
            final(self).metrics@ == (MetricsView {
                create_latency: old(self).metrics@.create_latency.recorded(millis),
                ..old(self).metrics@
            }),
            final(self).home == old(self).home,
            final(self).index == old(self).index,
            final(self).search_index_queue == old(self).search_index_queue,
            final(self).runtime_task_recovery_required == old(
                self,
            ).runtime_task_recovery_required,
            final(self).well_formed(),
    {
        self.metrics.record_create_latency(millis);
        proof {
            crate::metrics::windows_stay_bounded(old(self).metrics@.create_latency, millis);
        }
    }

    /// Finds the file and the type of an attachment of a session: nothing for a session that the
    /// index does not know.
    pub fn read_attachment(
        &self,
        session_id: &str,
        attachment_id: &str,
        names: &Vec<String>,
        failure: &Option<StorageError>,
    ) -> (r: Result<Option<(String, String)>, StorageError>)
        ensures
            attachments::read_view(r) == if self.place_of(session_id@) is Some {
                attachments::attachment_lookup(session_id@, attachment_id@, text::texts(names@), task_protocol::opt_error(*failure))
            } else {
                attachments::attachment_lookup(session_id@, attachment_id@, Seq::empty(), None)
            },
    {
        if self.index.resolve_rel_path(session_id).is_some() {
            read_attachment(session_id, attachment_id, names, failure)
        } else {
            let none: Vec<String> = Vec::new();
            assert(text::texts(none@) =~= Seq::<Seq<char>>::empty());
            read_attachment(session_id, attachment_id, &none, &None)
        }
    }

    /// Decides where a token-usage record of a session is appended, relative to the home
    /// directory.
    pub fn append_token_usage_record(&self, session_id: &str, json_line: &str) -> (r: Result<
        Option<(String, String)>,
        StorageError,
    >)
        ensures
            attachments::read_view(r) == attachments::token_usage_append(
                session_id@,
                if self.index@.sessions.contains_key(session_id@) {
                    Some(self.index@.sessions[session_id@].rel_path)
                } else {
                    None
                },
                json_line@,
            ),
    {
        let rel = self.index.resolve_rel_path(session_id);
        append_token_usage_record(session_id, &rel, json_line)
    }

    /// The ids of a session's children with the last status of each.
    pub fn list_child_run_statuses(&self, parent_session_id: &str) -> (r: Vec<
        (String, Option<String>),
    >)
        ensures
            r@.map_values(|p: (String, Option<String>)| (p.0@, session::opt_text(p.1)))
                == crate::index::child_statuses(index::values(self.index.sessions), parent_session_id@),
    {
        self.index.list_child_run_statuses(parent_session_id)
    }

    /// The ids of the sessions with a status, with the parent of each.
    pub fn list_sessions_by_run_status(&self, status: &str) -> (r: Vec<(String, Option<String>)>)
        ensures
            r@.map_values(|p: (String, Option<String>)| (p.0@, session::opt_text(p.1)))
                == crate::index::with_status(index::values(self.index.sessions), status@),
    {
        self.index.list_sessions_by_run_status(status)
    }

    /// Decides what a cleanup removes.
    pub fn cleanup(&self, mode: CleanupMode, keep_pinned: bool) -> (r: CleanupPlan)
        ensures
            crate::textset::text_set(r.roots@) == crate::cleanup::roots_going(
                index::values(self.index.sessions),
                mode,
                keep_pinned,
            ),
            crate::textset::text_set(r.children@) == crate::cleanup::children_going(
                index::values(self.index.sessions),
                mode,
                keep_pinned,
            ),
            crate::textset::text_set(r.result.deleted_session_ids@)
                == crate::cleanup::sessions_going(index::values(self.index.sessions), mode, keep_pinned),
            crate::textset::ascending(r.roots@) && crate::textset::ascending(r.children@)
                && crate::textset::ascending(r.result.deleted_session_ids@),
            r.result.deleted_count == r.result.deleted_session_ids@.len(),
    {
        cleanup(&self.index, mode, keep_pinned)
    }

    /// Begins the deletion of a session. `previous` is the revocation under its id, `birth` the
    /// birth that stands at the place of a root of that id and `directory_there` whether that
    /// place is taken.
    pub fn delete_session_recursive(
        &self,
        session_id: &str,
        force: bool,
        previous: Result<Option<Timestamp>, StorageError>,
        birth: Result<Option<Timestamp>, StorageError>,
        directory_there: Result<bool, StorageError>,
    ) -> (r: Deletion)
        ensures
            r@ == deletion::deletion_start(
                self.index@,
                index::values(self.index.sessions),
                session_id@,
                force,
                error::plain_view(previous),
                error::plain_view(birth),
                error::plain_view(directory_there),
            ),
    {
        Deletion::begin(&self.index, session_id, force, previous, birth, directory_there)
    }

    /// What a reset of the store removes.
    pub fn dev_reset(&self) -> (r: Vec<Removal>)
        ensures
            session::views(r@) == crate::cleanup::all_removals(index::values(self.index.sessions)),
    {
        dev_reset(&self.index)
    }
}

/// A path under a directory is the directory, a slash and the rest; a session that the index knows
/// stands under the home directory where its entry says, and one that it does not know nowhere.
pub proof fn where_a_session_stands(s: SessionStoreV2, id: Seq<char>, d: Seq<char>, rel: Seq<char>)
    ensures
        under(d, rel) == d + "/"@ + rel,
        s.index@.sessions.contains_key(id) ==> s.place_of(id) == Some(
            s.home@ + "/"@ + s.index@.sessions[id].rel_path,
        ),
        !s.index@.sessions.contains_key(id) ==> s.place_of(id) is None,
{
}

} // verus!
