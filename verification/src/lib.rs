//! Session storage: the decisions behind a folder-per-session store.
pub mod attachments;
pub mod cleanup;
pub mod copy;
pub mod copy_protocol;
pub mod copy_recovery;
pub mod deletion;
pub mod error;
pub mod index;
pub mod load;
pub mod locked_store;
pub mod metrics;
pub mod opening;
pub mod outside;
pub mod paths;
pub mod probe;
pub mod publishing;
pub mod rebuild;
pub mod recovery_target;
pub mod root_context;
pub mod root_fence;
pub mod root_lifetime;
pub mod root_publication;
pub mod save;
pub mod search_queue;
pub mod session;
pub mod session_merge;
pub mod store;
pub mod strmap;
pub mod supervisor;
pub mod supervisor_management;
pub mod task_journal;
pub mod task_protocol;
pub mod task_recovery;
pub mod text;
pub mod textset;
pub mod time;
