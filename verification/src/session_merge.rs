//! Saving a session without taking back what others have saved: which fields of the durable
//! copy win over the caller's, and how a save is retried after a newer Task generation.
use crate::error::{ErrorKind, ErrorView, StorageError};
use crate::error;
use crate::session::{clone_opt, drop_text, put_text, Message, MessageView, Session, SessionPermissionMode, SessionRuntimeMetadata, SessionRuntimeMetadataView, SessionView};
use crate::session;
use crate::strmap::StrMap;
use crate::task_journal::TASK_CONTROL_PLANE_CONFLICT_PREFIX;
use crate::text::{parse_u64, same_text, starts_with};
use crate::text;
use vstd::prelude::*;

verus! {

// ------------------------------------------------------------------- Task conflicts

/// How often a save is retried after a conflict with a newer Task generation.
pub const MAX_TASK_CONTROL_PLANE_REBASE_RETRIES: usize = 3;

/// Whether an error says that a save lost to a newer Task generation.
pub open spec fn task_save_conflict(e: ErrorView) -> bool {
    e.kind == ErrorKind::WouldBlock && text::has_prefix(e.message, TASK_CONTROL_PLANE_CONFLICT_PREFIX@)
}

/// Whether an error says that a save lost to a newer Task generation.
pub fn is_task_control_plane_save_conflict(error: &StorageError) -> (r: bool)
    ensures
        r == task_save_conflict(error@),
{
    error.kind == ErrorKind::WouldBlock && starts_with(
        &error.message,
        TASK_CONTROL_PLANE_CONFLICT_PREFIX,
    )
}

/// The session with the Tasks of another, and nothing else of it.
pub open spec fn adopted_tasks(s: SessionView, durable: SessionView) -> SessionView {
    let base = SessionView { task_list: durable.task_list, ..s.without_tasks() };
    match durable.task_generation() {
        Some(v) => base.with_generation(v),
        None => base,
    }
}

/// Takes over the Tasks of the durable session.
pub fn adopt_durable_task_control_plane(session: &mut Session, durable: &Session)
    ensures
        final(session)@ == adopted_tasks(old(session)@, durable@),
{
    session.clear_tasks();
    session.task_list = clone_opt(&durable.task_list);
    match durable.task_list_version_meta() {
        Some(v) => session.set_task_list_version_meta(v),
        None => {},
    }
    assert(session@ =~= adopted_tasks(old(session)@, durable@));
}

/// Whether the session holds the given list of Tasks.
pub fn task_list_snapshot_matches(session: &Session, expected_task_list: &str) -> (r: bool)
    ensures
        r == (session@.task_list == Some(expected_task_list@)),
{
    match &session.task_list {
        Some(l) => same_text(l, expected_task_list),
        None => false,
    }
}

/// Whether patching Tasks into `durable` would take back what it holds: an older generation, or
/// the same one with another list; a generation that is no number may only be written again as
/// it is.
pub open spec fn task_patch_regresses(
    durable: SessionView,
    list: Seq<char>,
    generation: Seq<char>,
) -> bool {
    match durable.task_generation() {
        None => false,
        Some(held) => match (text::parsed_u64(generation), text::parsed_u64(held)) {
            (Some(new), Some(old)) => new < old || (new == old && durable.task_list != Some(list)),
            _ => generation != held || durable.task_list != Some(list),
        },
    }
}

/// Whether patching Tasks into `durable` would take back what it holds.
pub fn unconditional_task_patch_would_regress(
    durable: &Session,
    incoming_task_list: &str,
    incoming_version: &str,
) -> (r: bool)
    ensures
        r == task_patch_regresses(durable@, incoming_task_list@, incoming_version@),
{
    let same_list = task_list_snapshot_matches(durable, incoming_task_list);
    match durable.task_list_version_meta() {
        None => false,
        Some(held) => match (parse_u64(incoming_version), parse_u64(&held)) {
            (Some(new), Some(old_version)) => new < old_version || (new == old_version
                && !same_list),
            _ => !same_text(incoming_version, &held) || !same_list,
        },
    }
}

// ---------------------------------------------------------------- metadata and ledger

/// Metadata with one key as other metadata holds it: its value, or none.
pub open spec fn merged_key(
    m: Map<Seq<char>, Seq<char>>,
    from: Map<Seq<char>, Seq<char>>,
    key: Seq<char>,
) -> Map<Seq<char>, Seq<char>> {
    if from.contains_key(key) {
        m.insert(key, from[key])
    } else {
        m.remove(key)
    }
}

fn merge_key(m: &mut StrMap<String>, from: &StrMap<String>, key: &str)
    ensures
        session::text_map(*final(m)) == merged_key(session::text_map(*old(m)), session::text_map(*from), key@),
{
    match crate::session::get_text(from, key) {
        Some(v) => put_text(m, key, v),
        None => drop_text(m, key),
    }
}

/// The session with the metadata group of the durable one, unless the session's is newer.
pub open spec fn merged_metadata(s: SessionView, latest: SessionView) -> SessionView {
    if latest.metadata_version >= s.metadata_version {
        SessionView {
            title: latest.title,
            title_version: latest.title_version,
            title_generated: latest.title_generated,
            pinned: latest.pinned,
            metadata: merged_key(
                merged_key(s.metadata, latest.metadata, "gold_config"@),
                latest.metadata,
                "workflow.run_ids.v1"@,
            ),
            metadata_version: latest.metadata_version,
            ..s
        }
    } else {
        s
    }
}

/// Takes over the metadata group of the durable session, unless the caller's is newer.
pub fn apply_authoritative_metadata(session: &mut Session, latest: &Session)
    ensures
        final(session)@ == merged_metadata(old(session)@, latest@),
{
    if latest.metadata_version >= session.metadata_version {
        session.title = latest.title.clone();
        session.title_version = latest.title_version;
        session.title_generated = latest.title_generated;
        session.pinned = latest.pinned;
        merge_key(&mut session.metadata, &latest.metadata, "gold_config");
        merge_key(&mut session.metadata, &latest.metadata, "workflow.run_ids.v1");
        session.metadata_version = latest.metadata_version;
    }
    assert(session@ =~= merged_metadata(old(session)@, latest@));
}

/// The session with the model-context ledger of the durable one.
pub open spec fn durable_ledger(s: SessionView, latest: SessionView) -> SessionView {
    SessionView { model_context_state: latest.model_context_state, ..s }
}

/// Takes over the model-context ledger of the durable session.
pub fn adopt_durable_model_context_state(session: &mut Session, latest: &Session)
    ensures
        final(session)@ == durable_ledger(old(session)@, latest@),
{
    session.model_context_state = match &latest.model_context_state {
        Some(v) => Some(v.duplicate()),
        None => None,
    };
    assert(session@ =~= durable_ledger(old(session)@, latest@));
}

/// Whether the durable ledger is ahead of the session's, or another at the same revision.
pub open spec fn ledger_is_stale(s: SessionView, latest: SessionView) -> bool {
    match (s.model_context_state, latest.model_context_state) {
        (None, Some(_)) => true,
        (Some(incoming), Some(durable)) => durable.state_revision > incoming.state_revision || (
        durable.state_revision == incoming.state_revision && durable != incoming),
        _ => false,
    }
}

fn stale_ledger(session: &Session, latest: &Session) -> (r: bool)
    ensures
        r == ledger_is_stale(session@, latest@),
{
    match (&session.model_context_state, &latest.model_context_state) {
        (None, Some(_)) => true,
        (Some(incoming), Some(durable)) => durable.state_revision > incoming.state_revision || (
        durable.state_revision == incoming.state_revision && !durable.same(incoming)),
        _ => false,
    }
}

/// The session with the durable ledger where its own is stale.
pub open spec fn fresher_ledger(s: SessionView, latest: SessionView) -> SessionView {
    if ledger_is_stale(s, latest) {
        durable_ledger(s, latest)
    } else {
        s
    }
}

/// Takes over the durable ledger where the caller's is stale.
pub fn adopt_fresher_durable_model_context_state(session: &mut Session, latest: &Session)
    ensures
        final(session)@ == fresher_ledger(old(session)@, latest@),
{
    if stale_ledger(session, latest) {
        adopt_durable_model_context_state(session, latest);
    }
}

/// What a checkpoint of the ledger is answered.
pub open spec fn ledger_check(s: SessionView, latest: SessionView) -> Result<(), ErrorView> {
    if ledger_is_stale(s, latest) {
        Err(
            error::plain_error(
                ErrorKind::WouldBlock,
                "stale or conflicting model-context ledger checkpoint"@,
            ),
        )
    } else {
        Ok(())
    }
}

/// Rejects a checkpoint whose ledger is stale or conflicts with the durable one.
pub fn ensure_model_context_checkpoint_is_current(session: &Session, latest: &Session) -> (r: Result<
    (),
    StorageError,
>)
    ensures
        error::plain_view(r) == ledger_check(session@, latest@),
{
    if stale_ledger(session, latest) {
        Err(
            StorageError::new(
                ErrorKind::WouldBlock,
                "stale or conflicting model-context ledger checkpoint".to_owned(),
            ),
        )
    } else {
        Ok(())
    }
}

// ------------------------------------------------------------------ permission posture

/// One metadata entry of a permission audit record: a value to be put, or a key to be cleared.
pub struct AuditEntry {
    pub key: String,
    pub value: Option<String>,
}

/// Metadata with the entries of an audit record written over it, one after the other.
pub open spec fn audited(
    m: Map<Seq<char>, Seq<char>>,
    entries: Seq<AuditEntry>,
) -> Map<Seq<char>, Seq<char>>
    decreases entries.len(),
{
    if entries.len() == 0 {
        m
    } else {
        let before = audited(m, entries.drop_last());
        match entries.last().value {
            Some(v) => before.insert(entries.last().key@, v@),
            None => before.remove(entries.last().key@),
        }
    }
}

/// The session with an audit record written over its metadata.
pub open spec fn with_audit(s: SessionView, entries: Seq<AuditEntry>) -> SessionView {
    SessionView { metadata: audited(s.metadata, entries), ..s }
}

/// Writes an audit record over the session's metadata.
pub fn write_audit(session: &mut Session, entries: &Vec<AuditEntry>)
    ensures
        final(session)@ == with_audit(old(session)@, entries@),
{
    let ghost start = session@;
    let mut i: usize = 0;
    assert(entries@.take(0) =~= Seq::<AuditEntry>::empty());
    assert(session@ =~= with_audit(start, entries@.take(0)));
    while i < entries.len()
        invariant
            i <= entries.len(),
            session@ == with_audit(start, entries@.take(i as int)),
        decreases entries.len() - i,
    {
        assert(entries@.take(i + 1).drop_last() =~= entries@.take(i as int));
        let ghost before = session@;
        match &entries[i].value {
            Some(v) => put_text(&mut session.metadata, &entries[i].key, v.clone()),
            None => drop_text(&mut session.metadata, &entries[i].key),
        }
        assert(session@ =~= with_audit(start, entries@.take(i + 1)));
        i = i + 1;
    }
    assert(entries@.take(entries@.len() as int) =~= entries@);
}

/// The modes that the permission audit is asked about before a save: the caller's and the
/// durable one; nothing is asked where the durable copy carries no runtime state.
pub open spec fn posture_question_of(
    s: SessionView,
    latest: SessionView,
) -> Option<(SessionPermissionMode, SessionPermissionMode)> {
    match latest.agent_runtime_state {
        None => None,
        Some(state) => Some((s.permission_mode(), state.permission_mode)),
    }
}

/// The modes that the permission audit is asked about before a save, if any.
pub fn posture_question(session: &Session, latest: &Session) -> (r: Option<
    (SessionPermissionMode, SessionPermissionMode),
>)
    ensures
        r == posture_question_of(session@, latest@),
{
    match &latest.agent_runtime_state {
        None => None,
        Some(state) => Some((session.effective_permission_mode(), state.permission_mode)),
    }
}

/// The session with the durable permission posture, where the audit finds that one fresher:
/// `audit` is then the durable audit record.
pub open spec fn fresher_posture(
    s: SessionView,
    latest: SessionView,
    audit: Option<Seq<AuditEntry>>,
) -> SessionView {
    match (latest.agent_runtime_state, audit) {
        (Some(disk), Some(entries)) => {
            let mode = disk.permission_mode;
            let moved = if s.agent_runtime_state is None && mode
                == SessionPermissionMode::Default {
                s
            } else {
                s.with_permission_mode(mode)
            };
            with_audit(moved, entries)
        },
        _ => s,
    }
}

/// What an audit said of a posture.
pub open spec fn opt_entries(a: Option<Vec<AuditEntry>>) -> Option<Seq<AuditEntry>> {
    match a {
        Some(v) => Some(v@),
        None => None,
    }
}

/// Takes over the durable permission posture and its audit record where the audit finds the
/// durable one fresher.
pub fn adopt_fresher_disk_permission_posture(
    session: &mut Session,
    latest: &Session,
    disk_audit: &Option<Vec<AuditEntry>>,
)
    ensures
        final(session)@ == fresher_posture(old(session)@, latest@, opt_entries(*disk_audit)),
{
    match (&latest.agent_runtime_state, disk_audit) {
        (Some(disk), Some(entries)) => {
            let mode = disk.permission_mode;
            if session.agent_runtime_state.is_some() || mode != SessionPermissionMode::Default {
                session.set_permission_mode(mode);
            }
            write_audit(session, entries);
        },
        _ => {},
    }
}

// ---------------------------------------------------------------------- merged saves

/// What the inbox rules make of a session that is about to be saved over a durable one: its
/// messages, and its runtime metadata with the admissions of both.
pub struct InboxOutcome {
    pub messages: Vec<Message>,
    pub runtime_metadata: Option<SessionRuntimeMetadata>,
}

/// What an [`InboxOutcome`] holds.
#[verifier::ext_equal]
pub struct InboxView {
    pub messages: Seq<MessageView>,
    pub runtime_metadata: Option<SessionRuntimeMetadataView>,
}

impl View for InboxOutcome {
    type V = InboxView;

    open spec fn view(&self) -> InboxView {
        InboxView {
            messages: session::views(self.messages@),
            runtime_metadata: session::opt_view(self.runtime_metadata),
        }
    }
}

/// The session with what the inbox rules made of it.
pub open spec fn with_inbox(s: SessionView, inbox: InboxView) -> SessionView {
    SessionView { messages: inbox.messages, runtime_metadata: inbox.runtime_metadata, ..s }
}

fn put_inbox(session: &mut Session, inbox: InboxOutcome)
    ensures
        final(session)@ == with_inbox(old(session)@, inbox@),
{
    session.messages = inbox.messages;
    session.runtime_metadata = inbox.runtime_metadata;
    assert(session@ =~= with_inbox(old(session)@, inbox@));
}

/// The session that a full save writes over a durable one.
pub open spec fn merged(
    s: SessionView,
    latest: SessionView,
    inbox: InboxView,
    audit: Option<Seq<AuditEntry>>,
    adopt_bypass: bool,
) -> SessionView {
    let m = with_inbox(merged_metadata(s, latest), inbox);
    let p = if adopt_bypass {
        fresher_posture(m, latest, audit)
    } else {
        m
    };
    fresher_ledger(p, latest)
}

/// Merges the durable session into the caller's before a full save: the metadata group unless
/// the caller's is newer, the inbox, the permission posture where it is fresher, and the ledger
/// where the caller's is stale. `inbox` and `disk_audit` are what the inbox and audit rules say
/// of the two sessions.
pub fn merge_authoritative_metadata_into_stale(
    session: &mut Session,
    latest: &Session,
    inbox: InboxOutcome,
    disk_audit: &Option<Vec<AuditEntry>>,
)
    ensures
        final(session)@ == merged(
            old(session)@,
            latest@,
            inbox@,
            opt_entries(*disk_audit),
            true,
        ),
{
    apply_authoritative_metadata(session, latest);
    put_inbox(session, inbox);
    adopt_fresher_disk_permission_posture(session, latest, disk_audit);
    adopt_fresher_durable_model_context_state(session, latest);
}

/// What a full save writes for a caller that holds no lock: its session over what is durable,
/// if anything is.
pub fn merge_save_session(
    session: &mut Session,
    latest: &Option<Session>,
    inbox: InboxOutcome,
    disk_audit: &Option<Vec<AuditEntry>>,
)
    ensures
        final(session)@ == match *latest {
            Some(l) => merged(old(session)@, l@, inbox@, opt_entries(*disk_audit), true),
            None => old(session)@,
        },
{
    match latest {
        Some(l) => merge_authoritative_metadata_into_stale(session, l, inbox, disk_audit),
        None => {},
    }
}

// ------------------------------------------------------------------------------ laws

/// A metadata edit that is newer than the durable one survives the merge, any other gives way
/// to the durable group as a whole, and the version never goes back.
pub proof fn metadata_merge_keeps_the_newer_edit(s: SessionView, latest: SessionView)
    ensures
        s.metadata_version > latest.metadata_version ==> merged_metadata(s, latest) == s,
        s.metadata_version <= latest.metadata_version ==> ({
            let m = merged_metadata(s, latest);
            &&& m.title == latest.title && m.title_version == latest.title_version
            &&& m.title_generated == latest.title_generated && m.pinned == latest.pinned
            &&& m.metadata_version == latest.metadata_version
            &&& m.metadata.contains_key("gold_config"@) == latest.metadata.contains_key(
                "gold_config"@,
            )
            &&& latest.metadata.contains_key("gold_config"@) ==> m.metadata["gold_config"@]
                == latest.metadata["gold_config"@]
            &&& m.metadata.contains_key("workflow.run_ids.v1"@) == latest.metadata.contains_key(
                "workflow.run_ids.v1"@,
            )
            &&& latest.metadata.contains_key("workflow.run_ids.v1"@)
                ==> m.metadata["workflow.run_ids.v1"@] == latest.metadata["workflow.run_ids.v1"@]
        }),
        merged_metadata(s, latest).metadata_version >= s.metadata_version,
        merged_metadata(s, latest).metadata_version >= latest.metadata_version,
{
    reveal_strlit("gold_config");
    reveal_strlit("workflow.run_ids.v1");
}

/// The metadata merge touches the metadata group alone: history, Tasks, ledger, permission mode
/// and every other metadata key stay as the caller has them.
pub proof fn metadata_merge_touches_its_group_alone(
    s: SessionView,
    latest: SessionView,
    key: Seq<char>,
)
    requires
        key != "gold_config"@,
        key != "workflow.run_ids.v1"@,
    ensures
        (SessionView {
            title: s.title,
            title_version: s.title_version,
            title_generated: s.title_generated,
            pinned: s.pinned,
            metadata_version: s.metadata_version,
            metadata: s.metadata,
            ..merged_metadata(s, latest)
        }) == s,
        merged_metadata(s, latest).metadata.contains_key(key) == s.metadata.contains_key(key),
        s.metadata.contains_key(key) ==> merged_metadata(s, latest).metadata[key]
            == s.metadata[key],
{
}

/// Merging the metadata of one durable session twice is merging it once.
pub proof fn metadata_merge_is_idempotent(s: SessionView, latest: SessionView)
    ensures
        merged_metadata(merged_metadata(s, latest), latest) == merged_metadata(s, latest),
{
    let once = merged_metadata(s, latest);
    assert(merged_metadata(once, latest).metadata =~= once.metadata);
    assert(merged_metadata(once, latest) =~= once);
}

/// A full save never takes the model-context ledger back: its revision is at least the durable
/// one's and at least the caller's, and of two ledgers at one revision the durable one stays.
pub proof fn the_ledger_never_goes_back(
    s: SessionView,
    latest: SessionView,
    inbox: InboxView,
    audit: Option<Seq<AuditEntry>>,
    adopt_bypass: bool,
)
    ensures
        ({
            let m = merged(s, latest, inbox, audit, adopt_bypass).model_context_state;
            &&& latest.model_context_state is Some ==> m is Some && m->0.state_revision
                >= latest.model_context_state->0.state_revision && (m->0.state_revision
                == latest.model_context_state->0.state_revision ==> m
                == latest.model_context_state)
            &&& s.model_context_state is Some ==> m is Some && m->0.state_revision
                >= s.model_context_state->0.state_revision
        }),
{
}

/// An accepted checkpoint replaces the durable ledger only with a strictly newer one, or with
/// itself.
pub proof fn a_checkpoint_only_moves_the_ledger_on(s: SessionView, latest: SessionView)
    requires
        ledger_check(s, latest) is Ok,
        latest.model_context_state is Some,
    ensures
        s.model_context_state is Some,
        s.model_context_state == latest.model_context_state
            || s.model_context_state->0.state_revision
            > latest.model_context_state->0.state_revision,
{
}

/// A durable posture that the audit finds fresher is taken over, mode and record together; one
/// that carries no runtime state changes nothing.
pub proof fn the_durable_posture_moves_as_a_whole(
    s: SessionView,
    latest: SessionView,
    entries: Seq<AuditEntry>,
)
    ensures
        latest.agent_runtime_state is Some ==> fresher_posture(
            s,
            latest,
            Some(entries),
        ).permission_mode() == latest.permission_mode() && fresher_posture(
            s,
            latest,
            Some(entries),
        ).metadata == audited(s.metadata, entries),
        latest.agent_runtime_state is None ==> fresher_posture(s, latest, Some(entries)) == s,
        fresher_posture(s, latest, None) == s,
{
}

/// A Task patch that is let through takes nothing back: its generation is at least the one held,
/// and at the same generation the list is the one held.
pub proof fn accepted_patches_never_take_tasks_back(
    durable: SessionView,
    list: Seq<char>,
    generation: Seq<char>,
)
    requires
        !task_patch_regresses(durable, list, generation),
        durable.task_generation() is Some,
    ensures
        ({
            let held = durable.task_generation()->0;
            match (text::parsed_u64(generation), text::parsed_u64(held)) {
                (Some(new), Some(old_value)) => new >= old_value && (new == old_value
                    ==> durable.task_list == Some(list)),
                _ => generation == held && durable.task_list == Some(list),
            }
        }),
{
}

/// Whether the entry at `i` is the last word of an audit record on its key.
pub open spec fn last_word(entries: Seq<AuditEntry>, i: int) -> bool {
    &&& 0 <= i < entries.len()
    &&& forall|j: int| i < j < entries.len() ==> (#[trigger] entries[j]).key@ != entries[i].key@
}

/// After an audit record is written over metadata, each key holds what the record last says of it,
/// or nothing where it last clears it; a key that the record does not mention is as it was.
pub proof fn an_audit_record_is_carried(
    m: Map<Seq<char>, Seq<char>>,
    entries: Seq<AuditEntry>,
    key: Seq<char>,
)
    ensures
        forall|i: int|
            #![trigger entries[i]]
            last_word(entries, i) && entries[i].value is Some ==> audited(m, entries).contains_key(
                entries[i].key@,
            ) && audited(m, entries)[entries[i].key@] == entries[i].value->0@,
        forall|i: int|
            #![trigger entries[i]]
            last_word(entries, i) && entries[i].value is None ==> !audited(m, entries).contains_key(
                entries[i].key@,
            ),
        (forall|i: int| 0 <= i < entries.len() ==> (#[trigger] entries[i]).key@ != key) ==> (
        audited(m, entries).contains_key(key) == m.contains_key(key) && (m.contains_key(key)
            ==> audited(m, entries)[key] == m[key])),
    decreases entries.len(),
{
    if entries.len() > 0 {
        let head = entries.drop_last();
        let n = head.len() as int;
        an_audit_record_is_carried(m, head, key);
        assert(entries[n] == entries.last());
        assert forall|i: int|
            #![trigger entries[i]]
            last_word(entries, i) && i < n implies last_word(head, i) && head[i] == entries[i]
                && entries[i].key@ != entries[n].key@ by {
            assert(head[i] == entries[i]);
            assert forall|j: int| i < j < head.len() implies (#[trigger] head[j]).key@
                != head[i].key@ by {
                assert(head[j] == entries[j]);
            }
        }
        if forall|i: int| 0 <= i < entries.len() ==> (#[trigger] entries[i]).key@ != key {
            assert forall|i: int| 0 <= i < head.len() implies (#[trigger] head[i]).key@ != key by {
                assert(head[i] == entries[i]);
            }
        }
    }
}

/// Taking over a fresher durable posture gives the session the durable mode, and changes nothing
/// but that mode and the metadata that the audit record speaks of.
pub proof fn a_posture_is_taken_over_narrowly(
    s: SessionView,
    latest: SessionView,
    entries: Seq<AuditEntry>,
    key: Seq<char>,
)
    requires
        latest.agent_runtime_state is Some,
        forall|i: int| 0 <= i < entries.len() ==> (#[trigger] entries[i]).key@ != key,
    ensures
        ({
            let p = fresher_posture(s, latest, Some(entries));
            &&& p.permission_mode() == latest.agent_runtime_state->0.permission_mode
            &&& p.metadata.contains_key(key) == s.metadata.contains_key(key)
            &&& s.metadata.contains_key(key) ==> p.metadata[key] == s.metadata[key]
            &&& s.agent_runtime_state is Some ==> p.agent_runtime_state is Some
                && p.agent_runtime_state->0.plan_mode == s.agent_runtime_state->0.plan_mode
                && p.agent_runtime_state->0.document == s.agent_runtime_state->0.document
            &&& (SessionView {
                agent_runtime_state: s.agent_runtime_state,
                metadata: s.metadata,
                ..p
            }) == s
        }),
{
    an_audit_record_is_carried(s.metadata, entries, key);
}

/// The audit is asked about the caller's mode and the durable one, exactly where the durable
/// session has runtime state.
pub proof fn the_audit_is_asked_about_both_modes(s: SessionView, latest: SessionView)
    ensures
        latest.agent_runtime_state is None ==> posture_question_of(s, latest) is None,
        latest.agent_runtime_state is Some ==> posture_question_of(s, latest) == Some(
            (s.permission_mode(), latest.agent_runtime_state->0.permission_mode),
        ),
{
}

/// A ledger is stale exactly where the durable one is of a later revision, of the same revision
/// with other contents, or the only one there is.
pub proof fn what_makes_a_ledger_stale(s: SessionView, latest: SessionView)
    ensures
        latest.model_context_state is None ==> !ledger_is_stale(s, latest),
        latest.model_context_state is Some && s.model_context_state is None ==> ledger_is_stale(
            s,
            latest,
        ),
        latest.model_context_state is Some && s.model_context_state is Some ==> (ledger_is_stale(
            s,
            latest,
        ) <==> latest.model_context_state->0.state_revision
            > s.model_context_state->0.state_revision || (
        latest.model_context_state->0.state_revision == s.model_context_state->0.state_revision
            && latest.model_context_state->0 != s.model_context_state->0)),
        ledger_check(s, latest) is Err <==> ledger_is_stale(s, latest),
        ledger_is_stale(s, latest) ==> fresher_ledger(s, latest).model_context_state
            == latest.model_context_state,
        !ledger_is_stale(s, latest) ==> fresher_ledger(s, latest) == s,
        durable_ledger(s, latest).model_context_state == latest.model_context_state,
        (SessionView {
            model_context_state: s.model_context_state,
            ..durable_ledger(s, latest)
        }) == s,
{
}

/// A full save keeps of the caller's session everything but the metadata group, what the inbox
/// rules decide, the permission posture and the ledger: identity, model, Tasks list, questions,
/// budgets, summaries, authority and times are the caller's, and the messages are the inbox's.
pub proof fn a_full_merge_keeps_the_rest(
    s: SessionView,
    latest: SessionView,
    inbox: InboxView,
    audit: Option<Seq<AuditEntry>>,
    adopt_bypass: bool,
)
    ensures
        ({
            let m = merged(s, latest, inbox, audit, adopt_bypass);
            &&& m.messages == inbox.messages && m.runtime_metadata == inbox.runtime_metadata
            &&& (SessionView {
                title: s.title,
                title_version: s.title_version,
                title_generated: s.title_generated,
                pinned: s.pinned,
                metadata_version: s.metadata_version,
                metadata: s.metadata,
                messages: s.messages,
                runtime_metadata: s.runtime_metadata,
                agent_runtime_state: s.agent_runtime_state,
                model_context_state: s.model_context_state,
                ..m
            }) == s
            &&& latest.metadata_version >= s.metadata_version ==> m.title == latest.title
                && m.title_version == latest.title_version && m.title_generated
                == latest.title_generated && m.pinned == latest.pinned && m.metadata_version
                == latest.metadata_version
            &&& latest.metadata_version < s.metadata_version ==> m.title == s.title
                && m.title_version == s.title_version && m.title_generated == s.title_generated
                && m.pinned == s.pinned && m.metadata_version == s.metadata_version
            &&& !adopt_bypass || audit is None || latest.agent_runtime_state is None
                ==> m.agent_runtime_state == s.agent_runtime_state
            &&& adopt_bypass && audit is Some && latest.agent_runtime_state is Some
                ==> m.permission_mode() == latest.agent_runtime_state->0.permission_mode
        }),
{
}

/// A save has lost to a newer Task generation exactly where it would block and says so.
pub proof fn a_lost_save_says_so(session: Seq<char>, e: ErrorView)
    ensures
        task_save_conflict(
            error::plain_error(
                ErrorKind::WouldBlock,
                "Task control-plane changed while saving session "@ + session,
            ),
        ),
        e.kind != ErrorKind::WouldBlock ==> !task_save_conflict(e),
        !text::has_prefix(e.message, "Task control-plane changed while saving session "@)
            ==> !task_save_conflict(e),
{
    let prefix = "Task control-plane changed while saving session "@;
    assert((prefix + session).subrange(0, prefix.len() as int) =~= prefix);
}

/// What is said of these values is said of their own fields: none is left out or exchanged.
pub proof fn nothing_is_left_unseen(a: InboxOutcome)
    ensures
        a@.messages.len() == a.messages@.len(),
        forall|i: int|
            0 <= i < a.messages@.len() ==> #[trigger] a@.messages[i] == a.messages@[i]@,
        a@.runtime_metadata is Some <==> a.runtime_metadata is Some,
        a.runtime_metadata is Some ==> a@.runtime_metadata->0 == a.runtime_metadata->0@,
{
}

/// A checkpoint of a stale ledger is refused as one to be tried again. A save that lost against newer
/// Tasks is told by its kind and the beginning of its message alone.
pub proof fn how_a_ledger_is_refused(s: SessionView, latest: SessionView, e: ErrorView)
    ensures
        ledger_check(s, latest) is Err <==> ledger_is_stale(s, latest),
        ledger_check(s, latest) is Err ==> ledger_check(s, latest)->Err_0.kind
            == ErrorKind::WouldBlock && !ledger_check(s, latest)->Err_0.authority_conflict,
        task_save_conflict(e) ==> e.kind == ErrorKind::WouldBlock,
        e.kind != ErrorKind::WouldBlock ==> !task_save_conflict(e),
{
}

} // verus!
