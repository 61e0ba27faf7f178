//! Copying a session into a new, independent root.
use crate::error::{other_io_error, ErrorKind, ErrorView, StorageError};
use crate::error;
use crate::index::SessionsIndex;
use crate::outside::parse_uuid;
use crate::outside;
use crate::paths::{extension, file_stem, validate_session_id};
use crate::paths;
use crate::session::{drop_if_empty, has_member, AgentRuntimeState, ImageOcrResult, ImageOcrResultView, Message, MessagePart, MessagePartView, MessageView, Session, SessionAuthorityIdentity, SessionKind, SessionRuntimeMetadata, SessionRuntimeMetadataView, SessionView};
use crate::session;
use crate::strmap::StrMap;
use crate::strmap;
use crate::task_journal;
use crate::text::{decimal, join2, join3, same_text, split, starts_with, strip_prefix, trim_end};
use crate::text;
use crate::time::Timestamp;
use vstd::prelude::*;

verus! {

/// Directory of the copy journals, under the home directory.
pub const SESSION_COPY_TRANSACTION_DIR: &'static str = ".session-copy-transactions";

/// Version of the copy journals.
pub const SESSION_COPY_TRANSACTION_VERSION: u32 = 1;

// ------------------------------------------------------------------- what is copied

/// The metadata keys that belong to a session's execution and not to its conversation.
pub open spec fn transient_key(key: Seq<char>) -> bool {
    ||| key == "agent.runtime.state"@
    ||| key == "assignment_prompt"@
    ||| key == "clarification_resume_pending"@
    ||| key == "conclusion_with_options_resume_pending"@
    ||| key == "created_by_connect_key"@
    ||| key == "created_by_schedule_id"@
    ||| key == "disabled_tools"@
    ||| key == "external_memory_rendered"@
    ||| key == "execute.startup_handoff_at"@
    ||| key == "execute.pending_turn_message_id"@
    ||| key == "goal.state"@
    ||| key == "gold.auto_continue_count"@
    ||| key == "gold.evaluation_count"@
    ||| key == "guardian.config"@
    ||| key == "guardian.state"@
    ||| key == "context_pressure_last_level"@
    ||| key == "llm_request_render"@
    ||| key == "last_run_error"@
    ||| key == "last_run_status"@
    ||| key == "lifecycle"@
    ||| key == "pending_injected_messages"@
    ||| key == "placement"@
    ||| key == "project_resources_rendered"@
    ||| key == "prompt_component_flags"@
    ||| key == "prompt_component_lengths"@
    ||| key == "prompt_composer_version"@
    ||| key == "prompt_fingerprint"@
    ||| key == "permission.reexecute_request_generation"@
    ||| key == "permission.reexecute_tool_call_id"@
    ||| key == "resident_context"@
    ||| key == "resident_name"@
    ||| key == "responses.previous_response_id"@
    ||| key == "responsibility"@
    ||| key == "retry_resume_pending"@
    ||| key == "retry_resume_reason"@
    ||| key == "runtime.budget_exceeded_kind"@
    ||| key == "runtime.completion_reason"@
    ||| key == "runtime.kind"@
    ||| key == "runtime.session_start_source"@
    ||| key == "runtime.suspend_reason"@
    ||| key == "schedule_run_id"@
    ||| key == "skill.context"@
    ||| key == "spawned_by"@
    ||| key == "subagent_type"@
    ||| key == "task_list_version"@
    ||| key == "todo_list_version"@
}

fn is_transient_key(key: &str) -> (r: bool)
    ensures
        r == transient_key(key@),
{
    same_text(key, "agent.runtime.state") || same_text(key, "assignment_prompt") || same_text(key, "clarification_resume_pending") || same_text(key, "conclusion_with_options_resume_pending") || same_text(key, "created_by_connect_key") || same_text(key, "created_by_schedule_id") || same_text(key, "disabled_tools") || same_text(key, "external_memory_rendered") || same_text(key, "execute.startup_handoff_at") || same_text(key, "execute.pending_turn_message_id") || same_text(key, "goal.state") || same_text(key, "gold.auto_continue_count") || same_text(key, "gold.evaluation_count") || same_text(key, "guardian.config") || same_text(key, "guardian.state") || same_text(key, "context_pressure_last_level") || same_text(key, "llm_request_render") || same_text(key, "last_run_error") || same_text(key, "last_run_status") || same_text(key, "lifecycle") || same_text(key, "pending_injected_messages") || same_text(key, "placement") || same_text(key, "project_resources_rendered") || same_text(key, "prompt_component_flags") || same_text(key, "prompt_component_lengths") || same_text(key, "prompt_composer_version") || same_text(key, "prompt_fingerprint") || same_text(key, "permission.reexecute_request_generation") || same_text(key, "permission.reexecute_tool_call_id") || same_text(key, "resident_context") || same_text(key, "resident_name") || same_text(key, "responses.previous_response_id") || same_text(key, "responsibility") || same_text(key, "retry_resume_pending") || same_text(key, "retry_resume_reason") || same_text(key, "runtime.budget_exceeded_kind") || same_text(key, "runtime.completion_reason") || same_text(key, "runtime.kind") || same_text(key, "runtime.session_start_source") || same_text(key, "runtime.suspend_reason") || same_text(key, "schedule_run_id") || same_text(key, "skill.context") || same_text(key, "spawned_by") || same_text(key, "subagent_type") || same_text(key, "task_list_version") || same_text(key, "todo_list_version")
}

/// Workflow metadata that a copy keeps.
pub open spec fn durable_workflow_key(key: Seq<char>) -> bool {
    ||| key == "workflow.selection.v1"@
    ||| key == "workflow.orchestration_opt_in"@
    ||| key == "workflow.active.v1"@
    ||| key == "workflow.active.snapshot.v1"@
}

/// Whether a copy keeps a metadata key; `audit_keys` are those of the permission audit.
pub open spec fn copied_key(key: Seq<char>, audit_keys: Set<Seq<char>>) -> bool {
    &&& !transient_key(key)
    &&& !audit_keys.contains(key)
    &&& !text::has_prefix(key, "a2a."@)
    &&& !text::has_prefix(key, "execute."@)
    &&& !text::has_prefix(key, "external."@)
    &&& !text::has_prefix(key, "gold.last_"@)
    &&& !text::has_prefix(key, "prefix_cache_"@)
    &&& !text::has_prefix(key, "runtime_prompt_"@)
    &&& !text::has_prefix(key, "skill_runtime_"@)
    &&& !text::has_prefix(key, "workflow."@) || durable_workflow_key(key)
}

fn is_copied_key(key: &str, audit_keys: &Vec<String>) -> (r: bool)
    ensures
        r == copied_key(key@, text::texts(audit_keys@).to_set()),
{
    if is_transient_key(key) || has_member(audit_keys, key) {
        return false;
    }
    if starts_with(key, "a2a.") || starts_with(key, "execute.") || starts_with(key, "external.")
        || starts_with(key, "gold.last_") || starts_with(key, "prefix_cache_") || starts_with(
        key,
        "runtime_prompt_",
    ) || starts_with(key, "skill_runtime_") {
        return false;
    }
    !starts_with(key, "workflow.") || same_text(key, "workflow.selection.v1") || same_text(
        key,
        "workflow.orchestration_opt_in",
    ) || same_text(key, "workflow.active.v1") || same_text(key, "workflow.active.snapshot.v1")
}

/// The metadata that a copy keeps.
pub open spec fn copied_metadata(
    m: Map<Seq<char>, Seq<char>>,
    audit_keys: Set<Seq<char>>,
) -> Map<Seq<char>, Seq<char>> {
    Map::new(
        |k: Seq<char>| m.contains_key(k) && copied_key(k, audit_keys),
        |k: Seq<char>| m[k],
    )
}

fn copy_metadata(m: &StrMap<String>, audit_keys: &Vec<String>) -> (r: StrMap<String>)
    ensures
        session::text_map(r) == copied_metadata(session::text_map(*m), text::texts(audit_keys@).to_set()),
{
    let n: usize = m.len();
    let mut r: StrMap<String> = StrMap::new();
    let mut i: usize = 0;
    let ghost audit = text::texts(audit_keys@).to_set();
    while i < n
        invariant
            i <= n,
            n == m.pairs().len(),
            strmap::describes(m.pairs(), m@),
            audit == text::texts(audit_keys@).to_set(),
            forall|k: Seq<char>| #[trigger]
                r@.contains_key(k) <==> strmap::has_key(m.pairs().take(i as int), k) && copied_key(
                    k,
                    audit,
                ),
            forall|k: Seq<char>| #[trigger]
                r@.contains_key(k) ==> m@.contains_key(k) && r@[k] == m@[k],
        decreases n - i,
    {
        let ghost earlier = r@;
        let ghost p = m.pairs();
        let key = m.key_at(i).clone();
        if is_copied_key(&key, audit_keys) {
            r.insert(m.key_at(i).clone(), m.value_at(i).clone());
        }
        proof {
            assert forall|k: Seq<char>| strmap::has_key(p.take(i + 1), k) <==> (strmap::has_key(
                p.take(i as int),
                k,
            ) || k == key@) by {
                if strmap::has_key(p.take(i as int), k) {
                    let j = strmap::key_index(p.take(i as int), k);
                    assert(p.take(i as int)[j].0@ == k);
                    assert(p.take(i + 1)[j].0@ == k);
                }
                if k == key@ {
                    assert(p.take(i + 1)[i as int].0@ == k);
                }
                if strmap::has_key(p.take(i + 1), k) {
                    let j = strmap::key_index(p.take(i + 1), k);
                    assert(p.take(i + 1)[j].0@ == k);
                    if j < i {
                        assert(p.take(i as int)[j].0@ == k);
                    }
                }
            }
            assert(p[i as int].0@ == key@);
            assert(m@.contains_key(key@));
        }
        i = i + 1;
    }
    proof {
        assert(m.pairs().take(n as int) =~= m.pairs());
        assert forall|k: Seq<char>| m@.contains_key(k) implies strmap::has_key(m.pairs(), k) by {}
        assert forall|k: Seq<char>| strmap::has_key(m.pairs(), k) implies m@.contains_key(k) by {
            let j = strmap::key_index(m.pairs(), k);
            assert(m.pairs()[j].0@ == k);
        }
        assert(session::text_map(r) =~= copied_metadata(session::text_map(*m), audit));
    }
    r
}

/// The messages without the system-resume requests that still wait at their end.
pub open spec fn without_pending_resume(m: Seq<MessageView>) -> Seq<MessageView>
    decreases m.len(),
{
    if m.len() > 0 && m.last().system_resume {
        without_pending_resume(m.drop_last())
    } else {
        m
    }
}

/// The messages out of any compression epoch.
pub open spec fn uncompressed(m: Seq<MessageView>) -> Seq<MessageView> {
    m.map_values(|x: MessageView| MessageView { compression_level: 0, ..x })
}

fn copy_messages(messages: Vec<Message>) -> (r: Vec<Message>)
    ensures
        session::views(r@) == uncompressed(without_pending_resume(session::views(messages@))),
{
    let ghost all = session::views(messages@);
    let mut rest: Vec<Message> = messages;
    while rest.len() > 0 && rest[rest.len() - 1].system_resume
        invariant
            without_pending_resume(session::views(rest@)) == without_pending_resume(all),
        decreases rest.len(),
    {
        let ghost before = rest@;
        let _ = rest.pop();
        assert(session::views(rest@) =~= session::views(before).drop_last());
    }
    let ghost kept = session::views(rest@);
    let mut out: Vec<Message> = Vec::new();
    let mut i: usize = 0;
    while i < rest.len()
        invariant
            i <= rest.len(),
            kept == session::views(rest@),
            out.len() == i,
            forall|j: int| 0 <= j < i ==> (#[trigger] out@[j])@ == uncompressed(kept)[j],
        decreases rest.len() - i,
    {
        let message = rest[i].duplicate();
        assert(kept[i as int] == message@);
        out.push(Message { compression_level: 0, ..message });
        i = i + 1;
    }
    assert(session::views(out@) =~= uncompressed(kept));
    out
}

/// Runtime metadata without what belongs to an execution.
pub open spec fn copied_runtime(
    m: Option<SessionRuntimeMetadataView>,
) -> Option<SessionRuntimeMetadataView> {
    session::unless_empty(
        match m {
            Some(m) => Some(
                SessionRuntimeMetadataView {
                    subagent_type: None,
                    last_run_status: None,
                    last_run_error: None,
                    pending_injected_messages: None,
                    task_list_version: None,
                    todo_list_version: None,
                    session_inbox_admission: None,
                    ..m
                },
            ),
            None => None,
        },
    )
}

/// A session as an independent root under a new id: its conversation without its execution.
/// `document` is the rest of the session without derived context.
pub open spec fn copied(
    s: SessionView,
    new_id: Seq<char>,
    now: Timestamp,
    audit_keys: Set<Seq<char>>,
    document: Seq<char>,
) -> SessionView {
    SessionView {
        authority_identity: SessionAuthorityIdentity::Ordinary,
        id: new_id,
        kind: SessionKind::Root,
        parent_session_id: None,
        root_session_id: new_id,
        spawn_depth: 0,
        title: text::trimmed_end(s.title) + " (copy)"@,
        title_version: 0,
        title_generated: true,
        metadata_version: 0,
        pinned: false,
        created_at: now,
        updated_at: now,
        pending_question: None,
        token_budget: None,
        resolved_token_budget: None,
        agent_runtime_state: match s.agent_runtime_state {
            Some(a) => Some(session::fresh_runtime_state(a.permission_mode)),
            None => None,
        },
        force_manual_compression: None,
        messages: uncompressed(without_pending_resume(s.messages)),
        token_usage: None,
        conversation_summary: None,
        provider_transcript: Seq::empty(),
        model_context_state: None,
        prompt_snapshot: None,
        task_list: None,
        metadata: copied_metadata(s.metadata, audit_keys),
        runtime_metadata: copied_runtime(s.runtime_metadata),
        document,
        ..s
    }
}

/// Makes a session an independent root under a new id: its conversation without its execution.
/// `audit_keys` are the metadata keys of the permission audit, and `document` is the rest of the
/// session without derived context.
pub fn copied_session_snapshot(
    source: Session,
    new_id: &str,
    now: Timestamp,
    audit_keys: &Vec<String>,
    document: String,
) -> (r: Session)
    ensures
        r@ == copied(source@, new_id@, now, text::texts(audit_keys@).to_set(), document@),
{
    let ghost original = source@;
    let title = join2(trim_end(&source.title), " (copy)");
    let agent_runtime_state = match &source.agent_runtime_state {
        Some(a) => Some(AgentRuntimeState::fresh(a.permission_mode)),
        None => None,
    };
    let metadata = copy_metadata(&source.metadata, audit_keys);
    let runtime = match source.runtime_metadata {
        Some(m) => Some(
            SessionRuntimeMetadata {
                subagent_type: None,
                last_run_status: None,
                last_run_error: None,
                pending_injected_messages: None,
                task_list_version: None,
                todo_list_version: None,
                session_inbox_admission: None,
                ..m
            },
        ),
        None => None,
    };
    let runtime_metadata = drop_if_empty(runtime);
    let messages = copy_messages(source.messages);
    let r = Session {
        authority_identity: SessionAuthorityIdentity::Ordinary,
        id: new_id.to_owned(),
        kind: SessionKind::Root,
        parent_session_id: None,
        root_session_id: new_id.to_owned(),
        spawn_depth: 0,
        title,
        title_version: 0,
        title_generated: true,
        metadata_version: 0,
        pinned: false,
        created_at: now,
        updated_at: now,
        pending_question: None,
        token_budget: None,
        resolved_token_budget: None,
        agent_runtime_state,
        force_manual_compression: None,
        messages,
        token_usage: None,
        conversation_summary: None,
        provider_transcript: String::new(),
        model_context_state: None,
        prompt_snapshot: None,
        task_list: None,
        metadata,
        runtime_metadata,
        document,
        model: source.model,
        model_ref: source.model_ref,
        reasoning_effort: source.reasoning_effort,
        supervisor_management: source.supervisor_management,
    };
    assert(r@ =~= copied(original, new_id@, now, text::texts(audit_keys@).to_set(), document@));
    r
}

// -------------------------------------------------------------------- attachments

/// What begins the URL of a session's attachments.
pub open spec fn attachment_prefix(id: Seq<char>) -> Seq<char> {
    "bamboo-attachment://"@ + id + "/"@
}

/// A URL that leads to a session's attachment made to lead to another session's.
pub open spec fn moved_url(url: Seq<char>, from: Seq<char>, to: Seq<char>) -> Seq<char> {
    if text::has_prefix(url, attachment_prefix(from)) {
        attachment_prefix(to) + url.subrange(
            attachment_prefix(from).len() as int,
            url.len() as int,
        )
    } else {
        url
    }
}

/// A part whose image leads to another session's attachments.
pub open spec fn moved_part(p: MessagePartView, from: Seq<char>, to: Seq<char>) -> MessagePartView {
    match p {
        MessagePartView::ImageUrl { url, document } => MessagePartView::ImageUrl {
            url: moved_url(url, from, to),
            document,
        },
        MessagePartView::Other { document } => p,
    }
}

/// A message whose images lead to another session's attachments.
pub open spec fn moved_message(m: MessageView, from: Seq<char>, to: Seq<char>) -> MessageView {
    MessageView {
        content_parts: match m.content_parts {
            Some(v) => Some(v.map_values(|p: MessagePartView| moved_part(p, from, to))),
            None => None,
        },
        image_ocr: match m.image_ocr {
            Some(v) => Some(
                v.map_values(
                    |o: ImageOcrResultView|
                        ImageOcrResultView { image_url: moved_url(o.image_url, from, to), ..o },
                ),
            ),
            None => None,
        },
        ..m
    }
}

/// A session whose images lead to another session's attachments.
pub open spec fn moved_attachments(s: SessionView, from: Seq<char>, to: Seq<char>) -> SessionView {
    SessionView {
        messages: s.messages.map_values(|m: MessageView| moved_message(m, from, to)),
        ..s
    }
}

fn move_url(url: &str, from: &str, to: &str) -> (r: String)
    ensures
        r@ == moved_url(url@, from@, to@),
{
    let source_prefix = join3("bamboo-attachment://", from, "/");
    match strip_prefix(url, &source_prefix) {
        Some(attachment) => {
            let target_prefix = join3("bamboo-attachment://", to, "/");
            join2(&target_prefix, attachment)
        },
        None => url.to_owned(),
    }
}

fn move_part(part: &MessagePart, from: &str, to: &str) -> (r: MessagePart)
    ensures
        r@ == moved_part(part@, from@, to@),
{
    match part {
        MessagePart::ImageUrl { url, document } => MessagePart::ImageUrl {
            url: move_url(url, from, to),
            document: document.clone(),
        },
        MessagePart::Other { document } => MessagePart::Other { document: document.clone() },
    }
}

fn move_parts(parts: &Vec<MessagePart>, from: &str, to: &str) -> (r: Vec<MessagePart>)
    ensures
        session::views(r@) == session::views(parts@).map_values(|p: MessagePartView| moved_part(p, from@, to@)),
{
    let mut out: Vec<MessagePart> = Vec::new();
    let mut i: usize = 0;
    while i < parts.len()
        invariant
            i <= parts.len(),
            out.len() == i,
            forall|j: int| 0 <= j < i ==> (#[trigger] out@[j])@ == moved_part(parts@[j]@, from@, to@),
        decreases parts.len() - i,
    {
        out.push(move_part(&parts[i], from, to));
        i = i + 1;
    }
    assert(session::views(out@) =~= session::views(parts@).map_values(
        |p: MessagePartView| moved_part(p, from@, to@),
    ));
    out
}

fn move_ocr(results: &Vec<ImageOcrResult>, from: &str, to: &str) -> (r: Vec<ImageOcrResult>)
    ensures
        session::views(r@) == session::views(results@).map_values(
            |o: ImageOcrResultView|
                ImageOcrResultView { image_url: moved_url(o.image_url, from@, to@), ..o },
        ),
{
    let mut out: Vec<ImageOcrResult> = Vec::new();
    let mut i: usize = 0;
    while i < results.len()
        invariant
            i <= results.len(),
            out.len() == i,
            forall|j: int|
                0 <= j < i ==> (#[trigger] out@[j])@ == (ImageOcrResultView {
                    image_url: moved_url(results@[j]@.image_url, from@, to@),
                    ..results@[j]@
                }),
        decreases results.len() - i,
    {
        let o = &results[i];
        out.push(
            ImageOcrResult {
                image_url: move_url(&o.image_url, from, to),
                document: o.document.clone(),
            },
        );
        i = i + 1;
    }
    assert(session::views(out@) =~= session::views(results@).map_values(
        |o: ImageOcrResultView|
            ImageOcrResultView { image_url: moved_url(o.image_url, from@, to@), ..o },
    ));
    out
}

fn move_message(m: &Message, from: &str, to: &str) -> (r: Message)
    ensures
        r@ == moved_message(m@, from@, to@),
{
    let r = Message {
        role: m.role,
        content_parts: match &m.content_parts {
            Some(v) => Some(move_parts(v, from, to)),
            None => None,
        },
        image_ocr: match &m.image_ocr {
            Some(v) => Some(move_ocr(v, from, to)),
            None => None,
        },
        compression_level: m.compression_level,
        system_resume: m.system_resume,
        document: m.document.clone(),
    };
    assert(r@ =~= moved_message(m@, from@, to@));
    r
}

/// Makes every image of a session that leads to attachments of `source_id` lead to those of
/// `new_id`.
pub fn rewrite_attachment_session_urls(session: &mut Session, source_id: &str, new_id: &str)
    ensures
        final(session)@ == moved_attachments(old(session)@, source_id@, new_id@),
{
    let ghost original = session@;
    let mut out: Vec<Message> = Vec::new();
    let mut i: usize = 0;
    while i < session.messages.len()
        invariant
            i <= session.messages.len(),
            session@ == original,
            out.len() == i,
            forall|j: int|
                0 <= j < i ==> (#[trigger] out@[j])@ == moved_message(
                    original.messages[j],
                    source_id@,
                    new_id@,
                ),
        decreases session.messages.len() - i,
    {
        assert(original.messages[i as int] == session.messages@[i as int]@);
        out.push(move_message(&session.messages[i], source_id, new_id));
        i = i + 1;
    }
    assert(session::views(out@) =~= original.messages.map_values(
        |m: MessageView| moved_message(m, source_id@, new_id@),
    ));
    session.messages = out;
    assert(session@ =~= moved_attachments(original, source_id@, new_id@));
}

// ---------------------------------------------------------------------- the request

/// The kind and root that a session's indexed directory states.
pub open spec fn source_identity(source: Seq<char>, rel: Seq<char>) -> Result<
    (SessionKind, Seq<char>),
    ErrorView,
> {
    let parts = text::pieces(rel, '/');
    if parts.len() == 2 && parts[0] == "sessions"@ && parts[1] == source {
        Ok((SessionKind::Root, source))
    } else if parts.len() == 4 && parts[0] == "sessions"@ && parts[2] == "children"@ && parts[3]
        == source {
        if paths::id_check(parts[1]) is Err {
            Err(paths::id_check(parts[1])->Err_0)
        } else {
            Ok((SessionKind::Child, parts[1]))
        }
    } else {
        Err(
            error::plain_error(
                ErrorKind::InvalidData,
                "source session index path is not canonical"@,
            ),
        )
    }
}

/// The view of an identity.
pub open spec fn identity_view(
    r: Result<(SessionKind, String), StorageError>,
) -> Result<(SessionKind, Seq<char>), ErrorView> {
    match r {
        Ok(p) => Ok((p.0, p.1@)),
        Err(e) => Err(e@),
    }
}

/// Takes the kind and root that a session's indexed directory states.
pub fn copy_source_identity_from_rel(source_id: &str, source_rel: &str) -> (r: Result<
    (SessionKind, String),
    StorageError,
>)
    ensures
        identity_view(r) == source_identity(source_id@, source_rel@),
{
    let parts = split(source_rel, '/');
    proof {
        assert(text::texts(parts@).len() == parts@.len());
        assert forall|i: int| 0 <= i < parts@.len() implies #[trigger] text::texts(parts@)[i]
            == parts@[i]@ by {}
    }
    if parts.len() == 2 && same_text(&parts[0], "sessions") && same_text(&parts[1], source_id) {
        return Ok((SessionKind::Root, source_id.to_owned()));
    }
    if parts.len() == 4 && same_text(&parts[0], "sessions") && same_text(&parts[2], "children")
        && same_text(&parts[3], source_id) {
        match validate_session_id(&parts[1]) {
            Err(e) => {
                return Err(e);
            },
            Ok(_) => {},
        }
        return Ok((SessionKind::Child, parts[1].clone()));
    }
    Err(
        StorageError::new(
            ErrorKind::InvalidData,
            "source session index path is not canonical".to_owned(),
        ),
    )
}

/// What a copy is asked for before anything is read: the directory, kind and root of the source,
/// if the index knows it.
pub open spec fn copy_request(
    source: Seq<char>,
    target: Seq<char>,
    index: Map<Seq<char>, crate::index::SessionIndexEntryView>,
) -> Result<Option<(Seq<char>, SessionKind, Seq<char>)>, ErrorView> {
    if paths::id_check(source) is Err {
        Err(paths::id_check(source)->Err_0)
    } else if paths::id_check(target) is Err {
        Err(paths::id_check(target)->Err_0)
    } else if source == target {
        Err(error::plain_error(ErrorKind::Other, "source and copied session ids must differ"@))
    } else if !index.contains_key(source) {
        Ok(None)
    } else {
        match source_identity(source, index[source].rel_path) {
            Err(e) => Err(e),
            Ok(p) => if index.contains_key(target) {
                Err(error::plain_error(ErrorKind::AlreadyExists, "copied session id already exists"@))
            } else {
                Ok(Some((index[source].rel_path, p.0, p.1)))
            },
        }
    }
}

/// The view of a checked request.
pub open spec fn request_view(
    r: Result<Option<(String, SessionKind, String)>, StorageError>,
) -> Result<Option<(Seq<char>, SessionKind, Seq<char>)>, ErrorView> {
    match r {
        Ok(Some(p)) => Ok(Some((p.0@, p.1, p.2@))),
        Ok(None) => Ok(None),
        Err(e) => Err(e@),
    }
}

/// Checks a request to copy, by the ids and the index.
pub fn check_copy_request(source_id: &str, new_id: &str, index: &SessionsIndex) -> (r: Result<
    Option<(String, SessionKind, String)>,
    StorageError,
>)
    ensures
        request_view(r) == copy_request(source_id@, new_id@, index@.sessions),
{
    match validate_session_id(source_id) {
        Err(e) => {
            return Err(e);
        },
        Ok(_) => {},
    }
    match validate_session_id(new_id) {
        Err(e) => {
            return Err(e);
        },
        Ok(_) => {},
    }
    if same_text(source_id, new_id) {
        return Err(other_io_error("source and copied session ids must differ"));
    }
    let rel = match index.resolve_rel_path(source_id) {
        Some(r) => r,
        None => {
            return Ok(None);
        },
    };
    let (kind, root) = match copy_source_identity_from_rel(source_id, &rel) {
        Err(e) => {
            return Err(e);
        },
        Ok(p) => p,
    };
    if index.resolve_rel_path(new_id).is_some() {
        return Err(
            StorageError::new(
                ErrorKind::AlreadyExists,
                "copied session id already exists".to_owned(),
            ),
        );
    }
    Ok(Some((rel, kind, root)))
}

// ---------------------------------------------------------------------- the journal

/// The journal of a copy.
pub struct SessionCopyTransactionJournal {
    pub version: u32,
    pub transaction_id: String,
    pub source_id: String,
    pub target_id: String,
}

/// What a [`SessionCopyTransactionJournal`] holds.
#[verifier::ext_equal]
pub struct CopyJournalView {
    pub version: u32,
    pub transaction_id: Seq<char>,
    pub source_id: Seq<char>,
    pub target_id: Seq<char>,
}

impl View for SessionCopyTransactionJournal {
    type V = CopyJournalView;

    open spec fn view(&self) -> CopyJournalView {
        CopyJournalView {
            version: self.version,
            transaction_id: self.transaction_id@,
            source_id: self.source_id@,
            target_id: self.target_id@,
        }
    }
}

/// What a copy begins with.
pub struct CopyPlan {
    pub journal: SessionCopyTransactionJournal,
    pub copy: Session,
}

/// What a copy begins with, where `source` is what a strict load of the source gave.
pub open spec fn copy_plan(
    source_id: Seq<char>,
    new_id: Seq<char>,
    source: Result<Option<SessionView>, ErrorView>,
    target_exists: Result<bool, ErrorView>,
    transaction_id: Seq<char>,
    now: Timestamp,
    audit_keys: Set<Seq<char>>,
    document: Seq<char>,
) -> Result<(CopyJournalView, SessionView), ErrorView> {
    match source {
        Err(e) => Err(e),
        Ok(None) => Err(
            error::plain_error(ErrorKind::NotFound, "indexed source session.json is missing"@),
        ),
        Ok(Some(s)) => match target_exists {
            Err(e) => Err(e),
            Ok(true) => Err(
                error::plain_error(
                    ErrorKind::AlreadyExists,
                    "copied session directory already exists"@,
                ),
            ),
            Ok(false) => Ok(
                (
                    CopyJournalView {
                        version: SESSION_COPY_TRANSACTION_VERSION,
                        transaction_id,
                        source_id,
                        target_id: new_id,
                    },
                    moved_attachments(
                        copied(s, new_id, now, audit_keys, document),
                        source_id,
                        new_id,
                    ),
                ),
            ),
        },
    }
}

/// The view of a plan.
pub open spec fn copy_plan_view(
    r: Result<CopyPlan, StorageError>,
) -> Result<(CopyJournalView, SessionView), ErrorView> {
    match r {
        Ok(p) => Ok((p.journal@, p.copy@)),
        Err(e) => Err(e@),
    }
}

/// Decides what a copy begins with: its journal, and the session that it publishes.
pub fn copy_session_with_projection_guard(
    source_id: &str,
    new_id: &str,
    source: Result<Option<Session>, StorageError>,
    target_exists: Result<bool, StorageError>,
    transaction_id: String,
    now: Timestamp,
    audit_keys: &Vec<String>,
    document: String,
) -> (r: Result<CopyPlan, StorageError>)
    ensures
        copy_plan_view(r) == copy_plan(
            source_id@,
            new_id@,
            task_journal::load_view(source),
            error::plain_view(target_exists),
            transaction_id@,
            now,
            text::texts(audit_keys@).to_set(),
            document@,
        ),
{
    let source = match source {
        Err(e) => {
            return Err(e);
        },
        Ok(None) => {
            return Err(
                StorageError::new(
                    ErrorKind::NotFound,
                    "indexed source session.json is missing".to_owned(),
                ),
            );
        },
        Ok(Some(s)) => s,
    };
    match target_exists {
        Err(e) => {
            return Err(e);
        },
        Ok(there) => {
            if there {
                return Err(
                    StorageError::new(
                        ErrorKind::AlreadyExists,
                        "copied session directory already exists".to_owned(),
                    ),
                );
            }
        },
    }
    let mut copy = copied_session_snapshot(source, new_id, now, audit_keys, document);
    rewrite_attachment_session_urls(&mut copy, source_id, new_id);
    Ok(
        CopyPlan {
            journal: SessionCopyTransactionJournal {
                version: SESSION_COPY_TRANSACTION_VERSION,
                transaction_id,
                source_id: source_id.to_owned(),
                target_id: new_id.to_owned(),
            },
            copy,
        },
    )
}

/// How far the copy behind a journal has come.
#[derive(Debug, Clone, Copy, PartialEq, Eq, Structural)]
pub enum SessionCopyJournalMarkerState {
    Prepared,
    Committing,
    Committed,
}

/// The state that a file extension stands for.
pub open spec fn copy_marker_state(ext: Option<Seq<char>>) -> Option<
    SessionCopyJournalMarkerState,
> {
    match ext {
        None => None,
        Some(e) => if e == "json"@ {
            Some(SessionCopyJournalMarkerState::Prepared)
        } else if e == "committing"@ {
            Some(SessionCopyJournalMarkerState::Committing)
        } else if e == "committed"@ {
            Some(SessionCopyJournalMarkerState::Committed)
        } else {
            None
        },
    }
}

impl SessionCopyJournalMarkerState {
    /// The state that a journal's file name stands for.
    pub fn from_path(path: &str) -> (r: Option<SessionCopyJournalMarkerState>)
        ensures
            r == copy_marker_state(paths::extension_of(path@)),
    {
        match extension(path) {
            None => None,
            Some(e) => if same_text(&e, "json") {
                Some(SessionCopyJournalMarkerState::Prepared)
            } else if same_text(&e, "committing") {
                Some(SessionCopyJournalMarkerState::Committing)
            } else if same_text(&e, "committed") {
                Some(SessionCopyJournalMarkerState::Committed)
            } else {
                None
            },
        }
    }
}

/// What checking a copy journal read from `path` gives, where `parsed` is what the UUID parser
/// makes of the file's stem.
pub open spec fn copy_journal_check(
    path: Seq<char>,
    j: CopyJournalView,
    parsed: Result<u128, Seq<char>>,
) -> Result<(), ErrorView> {
    if j.version != SESSION_COPY_TRANSACTION_VERSION {
        Err(
            error::plain_error(
                ErrorKind::InvalidData,
                "unsupported session copy transaction journal version "@ + text::decimal_text(
                    j.version as nat,
                ),
            ),
        )
    } else if paths::stem_of(path) is None {
        Err(error::plain_error(ErrorKind::InvalidData, "invalid copy journal name"@))
    } else if parsed is Err {
        Err(
            error::plain_error(
                ErrorKind::InvalidData,
                "invalid session copy transaction UUID: "@ + parsed->Err_0,
            ),
        )
    } else if j.transaction_id != paths::stem_of(path)->0 {
        Err(
            error::plain_error(
                ErrorKind::InvalidData,
                "session copy transaction id does not match its filename"@,
            ),
        )
    } else if paths::id_check(j.source_id) is Err {
        paths::id_check(j.source_id)
    } else if paths::id_check(j.target_id) is Err {
        paths::id_check(j.target_id)
    } else if j.source_id == j.target_id {
        Err(
            error::plain_error(
                ErrorKind::InvalidData,
                "session copy transaction source and target must differ"@,
            ),
        )
    } else {
        Ok(())
    }
}

/// Checks a copy journal read from `path` against what the UUID parser made of the file's stem.
pub fn check_session_copy_journal(
    path: &str,
    journal: &SessionCopyTransactionJournal,
    parsed: &Result<u128, String>,
) -> (r: Result<(), StorageError>)
    ensures
        error::plain_view(r) == copy_journal_check(path@, journal@, task_journal::parse_view(*parsed)),
{
    if journal.version != SESSION_COPY_TRANSACTION_VERSION {
        return Err(
            StorageError::new(
                ErrorKind::InvalidData,
                join2(
                    "unsupported session copy transaction journal version ",
                    &decimal(journal.version as u64),
                ),
            ),
        );
    }
    let file_id = match file_stem(path) {
        Some(s) => s,
        None => {
            return Err(
                StorageError::new(ErrorKind::InvalidData, "invalid copy journal name".to_owned()),
            );
        },
    };
    match parsed {
        Err(e) => {
            return Err(
                StorageError::new(
                    ErrorKind::InvalidData,
                    join2("invalid session copy transaction UUID: ", e),
                ),
            );
        },
        Ok(_) => {},
    }
    if journal.transaction_id != file_id {
        return Err(
            StorageError::new(
                ErrorKind::InvalidData,
                "session copy transaction id does not match its filename".to_owned(),
            ),
        );
    }
    match validate_session_id(&journal.source_id) {
        Err(e) => {
            return Err(e);
        },
        Ok(_) => {},
    }
    match validate_session_id(&journal.target_id) {
        Err(e) => {
            return Err(e);
        },
        Ok(_) => {},
    }
    if journal.source_id == journal.target_id {
        return Err(
            StorageError::new(
                ErrorKind::InvalidData,
                "session copy transaction source and target must differ".to_owned(),
            ),
        );
    }
    Ok(())
}

/// Checks a copy journal read from `path`.
pub fn validate_session_copy_journal(path: &str, journal: &SessionCopyTransactionJournal) -> (r:
    Result<(), StorageError>)
    ensures
        error::plain_view(r) == copy_journal_check(path@, journal@, outside::parsed_uuid(task_journal::stem_text(path@))),
{
    let stem = match file_stem(path) {
        Some(s) => s,
        None => String::new(),
    };
    let parsed = parse_uuid(&stem);
    check_session_copy_journal(path, journal, &parsed)
}

/// Where a copy is made before it is published, relative to the home directory.
pub open spec fn staging_path(transaction_id: Seq<char>) -> Seq<char> {
    ".session-copy-"@ + transaction_id
}

/// Where a copy is made before it is published, relative to the home directory.
pub fn session_copy_staging_dir(journal: &SessionCopyTransactionJournal) -> (r: String)
    ensures
        r@ == staging_path(journal@.transaction_id),
{
    join2(".session-copy-", &journal.transaction_id)
}

/// What finishing a committed copy takes up again: the target, which has to be an independent
/// root.
pub open spec fn committed_target(
    target: Result<Option<SessionView>, ErrorView>,
) -> Result<SessionView, ErrorView> {
    match target {
        Err(e) => Err(e),
        Ok(None) => Err(
            error::plain_error(ErrorKind::NotFound, "committed copied session target is missing"@),
        ),
        Ok(Some(t)) => if t.kind != SessionKind::Root || t.root_session_id != t.id {
            Err(
                error::plain_error(
                    ErrorKind::InvalidData,
                    "committed copied session is not an independent root"@,
                ),
            )
        } else {
            Ok(t)
        },
    }
}

/// Takes the target of a committed copy, to publish it again.
pub fn recover_committed_copy(target: Result<Option<Session>, StorageError>) -> (r: Result<
    Session,
    StorageError,
>)
    ensures
        crate::error::result_view(r) == committed_target(task_journal::load_view(target)),
{
    match target {
        Err(e) => Err(e),
        Ok(None) => Err(
            StorageError::new(
                ErrorKind::NotFound,
                "committed copied session target is missing".to_owned(),
            ),
        ),
        Ok(Some(t)) => if t.kind != SessionKind::Root || t.root_session_id != t.id {
            Err(
                StorageError::new(
                    ErrorKind::InvalidData,
                    "committed copied session is not an independent root".to_owned(),
                ),
            )
        } else {
            Ok(t)
        },
    }
}

// ------------------------------------------------------------------------------ laws

/// A copy is an independent, ordinary, unpinned root with no Task list, question, run status,
/// budget or ledger of its source, and with none of the metadata that belongs to an execution.
pub proof fn a_copy_is_independent(
    s: SessionView,
    source_id: Seq<char>,
    new_id: Seq<char>,
    now: Timestamp,
    audit_keys: Set<Seq<char>>,
    document: Seq<char>,
)
    ensures
        ({
            let c = moved_attachments(
                copied(s, new_id, now, audit_keys, document),
                source_id,
                new_id,
            );
            &&& c.id == new_id && c.root_session_id == new_id && c.kind == SessionKind::Root
            &&& c.parent_session_id is None && c.spawn_depth == 0 && !c.pinned
            &&& c.authority_identity == SessionAuthorityIdentity::Ordinary
            &&& c.task_list is None && c.task_generation() is None
            &&& c.run_status() is None && c.run_error() is None && c.profile() is None
            &&& c.pending_question is None && c.token_budget is None && c.token_usage is None
            &&& c.model_context_state is None && c.prompt_snapshot is None
            &&& c.permission_mode() == s.permission_mode()
            &&& forall|k: Seq<char>| #[trigger]
                c.metadata.contains_key(k) ==> copied_key(k, audit_keys) && s.metadata.contains_key(
                    k,
                ) && c.metadata[k] == s.metadata[k]
            &&& forall|k: Seq<char>| #[trigger]
                s.metadata.contains_key(k) && copied_key(k, audit_keys)
                    ==> c.metadata.contains_key(k)
        }),
{
    reveal_strlit("task_list_version");
    assert(crate::session::TASK_LIST_VERSION_KEY@ == "task_list_version"@);
}

/// A copy keeps every message of its source but the system-resume requests that still wait at the
/// end, in their order and with their content but for the session that images lead to.
pub proof fn a_copy_keeps_the_conversation(
    s: SessionView,
    source_id: Seq<char>,
    new_id: Seq<char>,
    now: Timestamp,
    audit_keys: Set<Seq<char>>,
    document: Seq<char>,
    i: int,
)
    requires
        0 <= i < without_pending_resume(s.messages).len(),
    ensures
        ({
            let c = moved_attachments(
                copied(s, new_id, now, audit_keys, document),
                source_id,
                new_id,
            );
            &&& c.messages.len() == without_pending_resume(s.messages).len()
            &&& c.messages[i].role == s.messages[i].role
            &&& c.messages[i].document == s.messages[i].document
            &&& c.messages[i].compression_level == 0
        }),
        without_pending_resume(s.messages).len() <= s.messages.len(),
        forall|j: int|
            without_pending_resume(s.messages).len() <= j < s.messages.len() ==> (
            #[trigger] s.messages[j]).system_resume,
{
    lemma_resume_tail(s.messages);
}

proof fn lemma_resume_tail(m: Seq<MessageView>)
    ensures
        without_pending_resume(m).len() <= m.len(),
        without_pending_resume(m) == m.take(without_pending_resume(m).len() as int),
        forall|j: int|
            without_pending_resume(m).len() <= j < m.len() ==> (#[trigger] m[j]).system_resume,
    decreases m.len(),
{
    if m.len() > 0 && m.last().system_resume {
        let h = m.drop_last();
        lemma_resume_tail(h);
        let n = without_pending_resume(m).len() as int;
        assert(h.take(n) =~= m.take(n));
        assert forall|j: int| n <= j < m.len() implies (#[trigger] m[j]).system_resume by {
            if j < h.len() {
                assert(h[j] == m[j]);
            }
        }
    } else {
        assert(m.take(m.len() as int) =~= m);
    }
}

/// After a copy, an image that led to an attachment of the source leads to the attachment of the
/// same name of the copy; any other image is as it was.
pub proof fn a_moved_url_keeps_the_attachment(
    attachment: Seq<char>,
    from: Seq<char>,
    to: Seq<char>,
    other: Seq<char>,
)
    requires
        !text::has_prefix(other, attachment_prefix(from)),
    ensures
        moved_url(attachment_prefix(from) + attachment, from, to) == attachment_prefix(to)
            + attachment,
        moved_url(other, from, to) == other,
{
    let url = attachment_prefix(from) + attachment;
    let n = attachment_prefix(from).len() as int;
    assert(url.subrange(0, n) =~= attachment_prefix(from));
    assert(url.subrange(n, url.len() as int) =~= attachment);
}

/// The journal that a copy writes under its own name passes the check on reading, in each of the
/// three states of its marker.
pub proof fn written_copy_journal_is_accepted(
    source_id: Seq<char>,
    new_id: Seq<char>,
    transaction_id: Seq<char>,
    ext: Seq<char>,
)
    requires
        paths::valid_id(source_id),
        paths::valid_id(new_id),
        source_id != new_id,
        crate::outside::uuid_text(transaction_id),
        transaction_id.len() > 0,
        outside::parsed_uuid(transaction_id) is Ok,
        ext == "json"@ || ext == "committing"@ || ext == "committed"@,
    ensures
        copy_journal_check(
            transaction_id + "."@ + ext,
            (CopyJournalView {
                version: SESSION_COPY_TRANSACTION_VERSION,
                transaction_id,
                source_id,
                target_id: new_id,
            }),
            outside::parsed_uuid(task_journal::stem_text(transaction_id + "."@ + ext)),
        ) is Ok,
        copy_marker_state(paths::extension_of(transaction_id + "."@ + ext)) is Some,
{
    reveal_strlit("json");
    reveal_strlit("committing");
    reveal_strlit("committed");
    assert(!transaction_id.contains('/'));
    assert(!ext.contains('/') && !ext.contains('.'));
    crate::paths::name_splits_at_its_dot(transaction_id, ext);
}

/// A tombstone is inert: neither scan takes the name under which a recovery marker is kept out of
/// use for a marker, whichever token it carries.
pub proof fn a_tombstone_is_no_marker(marker: Seq<char>, name: Seq<char>)
    requires
        paths::stem_of(marker) is Some,
        paths::is_tombstone(name, paths::stem_of(marker)->0),
    ensures
        task_journal::marker_state(paths::extension_of(name)) is None,
        copy_marker_state(paths::extension_of(name)) is None,
{
    let stem = paths::stem_of(marker)->0;
    let token = choose|token: Seq<char>|
        token.len() == 36 && outside::uuid_text(token) && name == #[trigger] paths::tombstone_of(
            stem,
            token,
        );
    crate::paths::a_tombstone_ends_in_its_token(marker, token);
    reveal_strlit("json");
    reveal_strlit("committing");
    reveal_strlit("committed");
}

/// A copy leaves behind the metadata of its source's execution, of the permission audit, and
/// whatever is named after an outside agent, an execution, a cache or a rendered prompt; of workflow
/// metadata it keeps the selection and what is active, and it keeps every other entry.
pub proof fn execution_metadata_is_left_behind(
    audit_keys: Set<Seq<char>>,
    rest: Seq<char>,
    key: Seq<char>,
)
    ensures
        !copied_key("agent.runtime.state"@, audit_keys),
        !copied_key("assignment_prompt"@, audit_keys),
        !copied_key("clarification_resume_pending"@, audit_keys),
        !copied_key("conclusion_with_options_resume_pending"@, audit_keys),
        !copied_key("created_by_connect_key"@, audit_keys),
        !copied_key("created_by_schedule_id"@, audit_keys),
        !copied_key("disabled_tools"@, audit_keys),
        !copied_key("external_memory_rendered"@, audit_keys),
        !copied_key("execute.startup_handoff_at"@, audit_keys),
        !copied_key("execute.pending_turn_message_id"@, audit_keys),
        !copied_key("goal.state"@, audit_keys),
        !copied_key("gold.auto_continue_count"@, audit_keys),
        !copied_key("gold.evaluation_count"@, audit_keys),
        !copied_key("guardian.config"@, audit_keys),
        !copied_key("guardian.state"@, audit_keys),
        !copied_key("context_pressure_last_level"@, audit_keys),
        !copied_key("llm_request_render"@, audit_keys),
        !copied_key("last_run_error"@, audit_keys),
        !copied_key("last_run_status"@, audit_keys),
        !copied_key("lifecycle"@, audit_keys),
        !copied_key("pending_injected_messages"@, audit_keys),
        !copied_key("placement"@, audit_keys),
        !copied_key("project_resources_rendered"@, audit_keys),
        !copied_key("prompt_component_flags"@, audit_keys),
        !copied_key("prompt_component_lengths"@, audit_keys),
        !copied_key("prompt_composer_version"@, audit_keys),
        !copied_key("prompt_fingerprint"@, audit_keys),
        !copied_key("permission.reexecute_request_generation"@, audit_keys),
        !copied_key("permission.reexecute_tool_call_id"@, audit_keys),
        !copied_key("resident_context"@, audit_keys),
        !copied_key("resident_name"@, audit_keys),
        !copied_key("responses.previous_response_id"@, audit_keys),
        !copied_key("responsibility"@, audit_keys),
        !copied_key("retry_resume_pending"@, audit_keys),
        !copied_key("retry_resume_reason"@, audit_keys),
        !copied_key("runtime.budget_exceeded_kind"@, audit_keys),
        !copied_key("runtime.completion_reason"@, audit_keys),
        !copied_key("runtime.kind"@, audit_keys),
        !copied_key("runtime.session_start_source"@, audit_keys),
        !copied_key("runtime.suspend_reason"@, audit_keys),
        !copied_key("schedule_run_id"@, audit_keys),
        !copied_key("skill.context"@, audit_keys),
        !copied_key("spawned_by"@, audit_keys),
        !copied_key("subagent_type"@, audit_keys),
        !copied_key("task_list_version"@, audit_keys),
        !copied_key("todo_list_version"@, audit_keys),
        !copied_key("a2a."@ + rest, audit_keys),
        !copied_key("execute."@ + rest, audit_keys),
        !copied_key("external."@ + rest, audit_keys),
        !copied_key("gold.last_"@ + rest, audit_keys),
        !copied_key("prefix_cache_"@ + rest, audit_keys),
        !copied_key("runtime_prompt_"@ + rest, audit_keys),
        !copied_key("skill_runtime_"@ + rest, audit_keys),
        "workflow."@ + rest
            != "workflow.selection.v1"@ && "workflow."@ + rest
            != "workflow.orchestration_opt_in"@ && "workflow."@ + rest
            != "workflow.active.v1"@ && "workflow."@ + rest
            != "workflow.active.snapshot.v1"@ ==> !copied_key("workflow."@ + rest, audit_keys),
        audit_keys.contains(key) ==> !copied_key(key, audit_keys),
        !audit_keys.contains(key) && key
            != "agent.runtime.state"@ && key
            != "assignment_prompt"@ && key
            != "clarification_resume_pending"@ && key
            != "conclusion_with_options_resume_pending"@ && key
            != "created_by_connect_key"@ && key
            != "created_by_schedule_id"@ && key
            != "disabled_tools"@ && key
            != "external_memory_rendered"@ && key
            != "execute.startup_handoff_at"@ && key
            != "execute.pending_turn_message_id"@ && key
            != "goal.state"@ && key
            != "gold.auto_continue_count"@ && key
            != "gold.evaluation_count"@ && key
            != "guardian.config"@ && key
            != "guardian.state"@ && key
            != "context_pressure_last_level"@ && key
            != "llm_request_render"@ && key
            != "last_run_error"@ && key
            != "last_run_status"@ && key
            != "lifecycle"@ && key
            != "pending_injected_messages"@ && key
            != "placement"@ && key
            != "project_resources_rendered"@ && key
            != "prompt_component_flags"@ && key
            != "prompt_component_lengths"@ && key
            != "prompt_composer_version"@ && key
            != "prompt_fingerprint"@ && key
            != "permission.reexecute_request_generation"@ && key
            != "permission.reexecute_tool_call_id"@ && key
            != "resident_context"@ && key
            != "resident_name"@ && key
            != "responses.previous_response_id"@ && key
            != "responsibility"@ && key
            != "retry_resume_pending"@ && key
            != "retry_resume_reason"@ && key
            != "runtime.budget_exceeded_kind"@ && key
            != "runtime.completion_reason"@ && key
            != "runtime.kind"@ && key
            != "runtime.session_start_source"@ && key
            != "runtime.suspend_reason"@ && key
            != "schedule_run_id"@ && key
            != "skill.context"@ && key
            != "spawned_by"@ && key
            != "subagent_type"@ && key
            != "task_list_version"@ && key
            != "todo_list_version"@ && !text::has_prefix(
            key,
            "a2a."@,
        ) && !text::has_prefix(
            key,
            "execute."@,
        ) && !text::has_prefix(
            key,
            "external."@,
        ) && !text::has_prefix(
            key,
            "gold.last_"@,
        ) && !text::has_prefix(
            key,
            "prefix_cache_"@,
        ) && !text::has_prefix(
            key,
            "runtime_prompt_"@,
        ) && !text::has_prefix(
            key,
            "skill_runtime_"@,
        ) && !text::has_prefix(
            key,
            "workflow."@,
        ) ==> copied_key(key, audit_keys),
{
    assert(("a2a."@ + rest).subrange(0, "a2a."@.len() as int) =~= "a2a."@);
    assert(("execute."@ + rest).subrange(0, "execute."@.len() as int) =~= "execute."@);
    assert(("external."@ + rest).subrange(0, "external."@.len() as int) =~= "external."@);
    assert(("gold.last_"@ + rest).subrange(0, "gold.last_"@.len() as int) =~= "gold.last_"@);
    assert(("prefix_cache_"@ + rest).subrange(0, "prefix_cache_"@.len() as int) =~= "prefix_cache_"@);
    assert(("runtime_prompt_"@ + rest).subrange(0, "runtime_prompt_"@.len() as int) =~= "runtime_prompt_"@);
    assert(("skill_runtime_"@ + rest).subrange(0, "skill_runtime_"@.len() as int) =~= "skill_runtime_"@);
    assert(("workflow."@ + rest).subrange(0, "workflow."@.len() as int) =~= "workflow."@);
}

/// What a copy keeps of workflow metadata.
pub proof fn workflow_choices_are_copied(audit_keys: Set<Seq<char>>)
    ensures
        !audit_keys.contains("workflow.selection.v1"@) ==> copied_key("workflow.selection.v1"@, audit_keys),
        !audit_keys.contains("workflow.orchestration_opt_in"@) ==> copied_key("workflow.orchestration_opt_in"@, audit_keys),
        !audit_keys.contains("workflow.active.v1"@) ==> copied_key("workflow.active.v1"@, audit_keys),
        !audit_keys.contains("workflow.active.snapshot.v1"@) ==> copied_key("workflow.active.snapshot.v1"@, audit_keys),
{
    reveal_strlit("agent.runtime.state");
    reveal_strlit("assignment_prompt");
    reveal_strlit("clarification_resume_pending");
    reveal_strlit("conclusion_with_options_resume_pending");
    reveal_strlit("created_by_connect_key");
    reveal_strlit("created_by_schedule_id");
    reveal_strlit("disabled_tools");
    reveal_strlit("external_memory_rendered");
    reveal_strlit("execute.startup_handoff_at");
    reveal_strlit("execute.pending_turn_message_id");
    reveal_strlit("goal.state");
    reveal_strlit("gold.auto_continue_count");
    reveal_strlit("gold.evaluation_count");
    reveal_strlit("guardian.config");
    reveal_strlit("guardian.state");
    reveal_strlit("context_pressure_last_level");
    reveal_strlit("llm_request_render");
    reveal_strlit("last_run_error");
    reveal_strlit("last_run_status");
    reveal_strlit("lifecycle");
    reveal_strlit("pending_injected_messages");
    reveal_strlit("placement");
    reveal_strlit("project_resources_rendered");
    reveal_strlit("prompt_component_flags");
    reveal_strlit("prompt_component_lengths");
    reveal_strlit("prompt_composer_version");
    reveal_strlit("prompt_fingerprint");
    reveal_strlit("permission.reexecute_request_generation");
    reveal_strlit("permission.reexecute_tool_call_id");
    reveal_strlit("resident_context");
    reveal_strlit("resident_name");
    reveal_strlit("responses.previous_response_id");
    reveal_strlit("responsibility");
    reveal_strlit("retry_resume_pending");
    reveal_strlit("retry_resume_reason");
    reveal_strlit("runtime.budget_exceeded_kind");
    reveal_strlit("runtime.completion_reason");
    reveal_strlit("runtime.kind");
    reveal_strlit("runtime.session_start_source");
    reveal_strlit("runtime.suspend_reason");
    reveal_strlit("schedule_run_id");
    reveal_strlit("skill.context");
    reveal_strlit("spawned_by");
    reveal_strlit("subagent_type");
    reveal_strlit("task_list_version");
    reveal_strlit("todo_list_version");
    reveal_strlit("a2a.");
    reveal_strlit("execute.");
    reveal_strlit("external.");
    reveal_strlit("gold.last_");
    reveal_strlit("prefix_cache_");
    reveal_strlit("runtime_prompt_");
    reveal_strlit("skill_runtime_");
    reveal_strlit("workflow.");
    reveal_strlit("workflow.selection.v1");
    reveal_strlit("workflow.orchestration_opt_in");
    reveal_strlit("workflow.active.v1");
    reveal_strlit("workflow.active.snapshot.v1");
    assert("workflow.selection.v1"@[0] == 'w');
    assert("workflow.orchestration_opt_in"@[0] == 'w');
    assert("workflow.active.v1"@[0] == 'w');
    assert("workflow.active.snapshot.v1"@[0] == 'w');
    assert("agent.runtime.state"@[0] == 'a');
    assert("assignment_prompt"@[0] == 'a');
    assert("clarification_resume_pending"@[0] == 'c');
    assert("conclusion_with_options_resume_pending"@[0] == 'c');
    assert("created_by_connect_key"@[0] == 'c');
    assert("created_by_schedule_id"@[0] == 'c');
    assert("disabled_tools"@[0] == 'd');
    assert("external_memory_rendered"@[0] == 'e');
    assert("execute.startup_handoff_at"@[0] == 'e');
    assert("execute.pending_turn_message_id"@[0] == 'e');
    assert("goal.state"@[0] == 'g');
    assert("gold.auto_continue_count"@[0] == 'g');
    assert("gold.evaluation_count"@[0] == 'g');
    assert("guardian.config"@[0] == 'g');
    assert("guardian.state"@[0] == 'g');
    assert("context_pressure_last_level"@[0] == 'c');
    assert("llm_request_render"@[0] == 'l');
    assert("last_run_error"@[0] == 'l');
    assert("last_run_status"@[0] == 'l');
    assert("lifecycle"@[0] == 'l');
    assert("pending_injected_messages"@[0] == 'p');
    assert("placement"@[0] == 'p');
    assert("project_resources_rendered"@[0] == 'p');
    assert("prompt_component_flags"@[0] == 'p');
    assert("prompt_component_lengths"@[0] == 'p');
    assert("prompt_composer_version"@[0] == 'p');
    assert("prompt_fingerprint"@[0] == 'p');
    assert("permission.reexecute_request_generation"@[0] == 'p');
    assert("permission.reexecute_tool_call_id"@[0] == 'p');
    assert("resident_context"@[0] == 'r');
    assert("resident_name"@[0] == 'r');
    assert("responses.previous_response_id"@[0] == 'r');
    assert("responsibility"@[0] == 'r');
    assert("retry_resume_pending"@[0] == 'r');
    assert("retry_resume_reason"@[0] == 'r');
    assert("runtime.budget_exceeded_kind"@[0] == 'r');
    assert("runtime.completion_reason"@[0] == 'r');
    assert("runtime.kind"@[0] == 'r');
    assert("runtime.session_start_source"@[0] == 'r');
    assert("runtime.suspend_reason"@[0] == 'r');
    assert("schedule_run_id"@[0] == 's');
    assert("skill.context"@[0] == 's');
    assert("spawned_by"@[0] == 's');
    assert("subagent_type"@[0] == 's');
    assert("task_list_version"@[0] == 't');
    assert("todo_list_version"@[0] == 't');
    assert("a2a."@[0] == 'a');
    assert("execute."@[0] == 'e');
    assert("external."@[0] == 'e');
    assert("gold.last_"@[0] == 'g');
    assert("prefix_cache_"@[0] == 'p');
    assert("runtime_prompt_"@[0] == 'r');
    assert("skill_runtime_"@[0] == 's');
    assert("workflow.selection.v1"@.subrange(0, "a2a."@.len() as int)[0] == 'w');
    assert("workflow.selection.v1"@.subrange(0, "execute."@.len() as int)[0] == 'w');
    assert("workflow.selection.v1"@.subrange(0, "external."@.len() as int)[0] == 'w');
    assert("workflow.selection.v1"@.subrange(0, "gold.last_"@.len() as int)[0] == 'w');
    assert("workflow.selection.v1"@.subrange(0, "prefix_cache_"@.len() as int)[0] == 'w');
    assert("workflow.selection.v1"@.subrange(0, "runtime_prompt_"@.len() as int)[0] == 'w');
    assert("workflow.selection.v1"@.subrange(0, "skill_runtime_"@.len() as int)[0] == 'w');
    assert("workflow.orchestration_opt_in"@.subrange(0, "a2a."@.len() as int)[0] == 'w');
    assert("workflow.orchestration_opt_in"@.subrange(0, "execute."@.len() as int)[0] == 'w');
    assert("workflow.orchestration_opt_in"@.subrange(0, "external."@.len() as int)[0] == 'w');
    assert("workflow.orchestration_opt_in"@.subrange(0, "gold.last_"@.len() as int)[0] == 'w');
    assert("workflow.orchestration_opt_in"@.subrange(0, "prefix_cache_"@.len() as int)[0] == 'w');
    assert("workflow.orchestration_opt_in"@.subrange(0, "runtime_prompt_"@.len() as int)[0] == 'w');
    assert("workflow.orchestration_opt_in"@.subrange(0, "skill_runtime_"@.len() as int)[0] == 'w');
    assert("workflow.active.v1"@.subrange(0, "a2a."@.len() as int)[0] == 'w');
    assert("workflow.active.v1"@.subrange(0, "execute."@.len() as int)[0] == 'w');
    assert("workflow.active.v1"@.subrange(0, "external."@.len() as int)[0] == 'w');
    assert("workflow.active.v1"@.subrange(0, "gold.last_"@.len() as int)[0] == 'w');
    assert("workflow.active.v1"@.subrange(0, "prefix_cache_"@.len() as int)[0] == 'w');
    assert("workflow.active.v1"@.subrange(0, "runtime_prompt_"@.len() as int)[0] == 'w');
    assert("workflow.active.v1"@.subrange(0, "skill_runtime_"@.len() as int)[0] == 'w');
    assert("workflow.active.snapshot.v1"@.subrange(0, "a2a."@.len() as int)[0] == 'w');
    assert("workflow.active.snapshot.v1"@.subrange(0, "execute."@.len() as int)[0] == 'w');
    assert("workflow.active.snapshot.v1"@.subrange(0, "external."@.len() as int)[0] == 'w');
    assert("workflow.active.snapshot.v1"@.subrange(0, "gold.last_"@.len() as int)[0] == 'w');
    assert("workflow.active.snapshot.v1"@.subrange(0, "prefix_cache_"@.len() as int)[0] == 'w');
    assert("workflow.active.snapshot.v1"@.subrange(0, "runtime_prompt_"@.len() as int)[0] == 'w');
    assert("workflow.active.snapshot.v1"@.subrange(0, "skill_runtime_"@.len() as int)[0] == 'w');
}

/// A copy of a conversation is that conversation: in the session that a copy publishes every kept
/// message has the role and the document of the source's, as many content parts and OCR results,
/// each part that is no image as it was, and each image part and OCR result with its document and
/// with the URL of the source's, but for the session that an attachment is of.
pub proof fn a_copied_message_keeps_its_content(
    source_id: Seq<char>,
    new_id: Seq<char>,
    s: SessionView,
    transaction_id: Seq<char>,
    now: Timestamp,
    audit_keys: Set<Seq<char>>,
    document: Seq<char>,
    i: int,
    j: int,
)
    ensures
        ({
            let plan = copy_plan(
                source_id,
                new_id,
                Ok(Some(s)),
                Ok(false),
                transaction_id,
                now,
                audit_keys,
                document,
            );
            let c = plan->Ok_0.1.messages;
            &&& plan is Ok
            &&& c.len() <= s.messages.len()
            &&& c.len() < s.messages.len() ==> (forall|k: int|
                c.len() <= k < s.messages.len() ==> (#[trigger] s.messages[k]).system_resume)
            &&& c.len() > 0 ==> !s.messages[c.len() - 1].system_resume
            &&& 0 <= i < c.len() ==> {
                let was = s.messages[i];
                let is = c[i];
                &&& is.role == was.role && is.document == was.document
                &&& is.system_resume == was.system_resume && is.compression_level == 0
                &&& is.content_parts is Some <==> was.content_parts is Some
                &&& is.image_ocr is Some <==> was.image_ocr is Some
                &&& was.content_parts is Some ==> is.content_parts->0.len()
                    == was.content_parts->0.len()
                &&& was.image_ocr is Some ==> is.image_ocr->0.len() == was.image_ocr->0.len()
                &&& was.content_parts is Some && 0 <= j < was.content_parts->0.len() ==> match (
                    was.content_parts->0[j],
                    is.content_parts->0[j],
                ) {
                    (MessagePartView::Other { document: a }, MessagePartView::Other { document: b })
                        => a == b,
                    (
                        MessagePartView::ImageUrl { url: from, document: a },
                        MessagePartView::ImageUrl { url: to, document: b },
                    ) => a == b && leads_alike(from, to, source_id, new_id),
                    _ => false,
                }
                &&& was.image_ocr is Some && 0 <= j < was.image_ocr->0.len() ==> leads_alike(
                    was.image_ocr->0[j].image_url,
                    is.image_ocr->0[j].image_url,
                    source_id,
                    new_id,
                ) && is.image_ocr->0[j].document == was.image_ocr->0[j].document
                &&& was.content_parts is None && was.image_ocr is None ==> (MessageView {
                    compression_level: was.compression_level,
                    ..is
                }) == was
            }
        }),
{
    lemma_resume_tail(s.messages);
    lemma_no_resume_at_the_end(s.messages);
    let c = moved_attachments(copied(s, new_id, now, audit_keys, document), source_id, new_id);
    if 0 <= i < c.messages.len() {
        let was = s.messages[i];
        assert(without_pending_resume(s.messages)[i] == was);
        if was.content_parts is Some && 0 <= j < was.content_parts->0.len() {
            match was.content_parts->0[j] {
                MessagePartView::ImageUrl { url, document: _ } => {
                    lemma_leads_alike(url, source_id, new_id);
                },
                _ => {},
            }
        }
        if was.image_ocr is Some && 0 <= j < was.image_ocr->0.len() {
            lemma_leads_alike(was.image_ocr->0[j].image_url, source_id, new_id);
        }
    }
}

/// Whether one address leads where another does, but to an attachment of `new_id` where that leads
/// to one of `source_id`.
pub open spec fn leads_alike(
    from: Seq<char>,
    to: Seq<char>,
    source_id: Seq<char>,
    new_id: Seq<char>,
) -> bool {
    ||| exists|attachment: Seq<char>|
        from == "bamboo-attachment://"@ + source_id + "/"@ + attachment && to
            == #[trigger] ("bamboo-attachment://"@ + new_id + "/"@ + attachment)
    ||| from == to && !(exists|attachment: Seq<char>|
        from == #[trigger] ("bamboo-attachment://"@ + source_id + "/"@ + attachment))
}

proof fn lemma_leads_alike(url: Seq<char>, source_id: Seq<char>, new_id: Seq<char>)
    ensures
        leads_alike(url, moved_url(url, source_id, new_id), source_id, new_id),
{
    let prefix = "bamboo-attachment://"@ + source_id + "/"@;
    let n = prefix.len() as int;
    if text::has_prefix(url, prefix) {
        let attachment = url.subrange(n, url.len() as int);
        assert(url =~= prefix + attachment);
        assert(moved_url(url, source_id, new_id) == "bamboo-attachment://"@ + new_id + "/"@
            + attachment);
    } else {
        assert forall|attachment: Seq<char>| url != #[trigger] ("bamboo-attachment://"@ + source_id
            + "/"@ + attachment) by {
            if url == prefix + attachment {
                assert(url.subrange(0, n) =~= prefix);
            }
        }
    }
}

proof fn lemma_no_resume_at_the_end(m: Seq<MessageView>)
    ensures
        without_pending_resume(m).len() > 0 ==> !without_pending_resume(m).last().system_resume,
    decreases m.len(),
{
    if m.len() > 0 && m.last().system_resume {
        lemma_no_resume_at_the_end(m.drop_last());
    }
}

/// A copy is made exactly where there is a source and nothing at the place of the target. Its
/// journal names both sessions, and the session that it publishes is an unedited, unpinned,
/// ordinary root of its own with the permission mode of the source and a title that says what it
/// is; it keeps model and reasoning of the source and nothing of its execution.
pub proof fn what_a_copy_publishes(
    source_id: Seq<char>,
    new_id: Seq<char>,
    s: SessionView,
    target_exists: Result<bool, ErrorView>,
    transaction_id: Seq<char>,
    now: Timestamp,
    audit_keys: Set<Seq<char>>,
    document: Seq<char>,
)
    ensures
        copy_plan(
            source_id,
            new_id,
            Ok(None),
            target_exists,
            transaction_id,
            now,
            audit_keys,
            document,
        ) is Err,
        ({
            let r = copy_plan(
                source_id,
                new_id,
                Ok(Some(s)),
                target_exists,
                transaction_id,
                now,
                audit_keys,
                document,
            );
            let c = r->Ok_0.1;
            &&& r is Ok <==> target_exists == Ok::<bool, ErrorView>(false)
            &&& r is Ok ==> {
                &&& r->Ok_0.0.version == 1 && r->Ok_0.0.transaction_id == transaction_id
                &&& r->Ok_0.0.source_id == source_id && r->Ok_0.0.target_id == new_id
                &&& c.id == new_id && c.root_session_id == new_id && c.kind == SessionKind::Root
                &&& c.parent_session_id is None && c.spawn_depth == 0
                &&& c.created_at == now && c.updated_at == now
                &&& c.title == text::trimmed_end(s.title) + " (copy)"@
                &&& c.title_version == 0 && c.title_generated && c.metadata_version == 0
                &&& !c.pinned && c.authority_identity == SessionAuthorityIdentity::Ordinary
                &&& c.agent_runtime_state is Some <==> s.agent_runtime_state is Some
                &&& s.agent_runtime_state is Some ==> c.agent_runtime_state->0.permission_mode
                    == s.agent_runtime_state->0.permission_mode
                    && c.agent_runtime_state->0.plan_mode is None
                    && c.agent_runtime_state->0.document.len() == 0
                &&& c.pending_question is None && c.token_budget is None
                &&& c.resolved_token_budget is None && c.force_manual_compression is None
                &&& c.token_usage is None && c.conversation_summary is None
                &&& c.provider_transcript.len() == 0 && c.model_context_state is None
                &&& c.prompt_snapshot is None && c.task_list is None && c.document == document
                &&& c.model == s.model && c.model_ref == s.model_ref
                &&& c.reasoning_effort == s.reasoning_effort
                &&& c.supervisor_management == s.supervisor_management
                &&& forall|k: Seq<char>| #[trigger]
                    c.metadata.contains_key(k) <==> s.metadata.contains_key(k) && copied_key(
                        k,
                        audit_keys,
                    )
                &&& forall|k: Seq<char>|
                    c.metadata.contains_key(k) ==> #[trigger] c.metadata[k] == s.metadata[k]
                &&& c.runtime_metadata is Some ==> s.runtime_metadata is Some
                    && c.runtime_metadata->0.workspace_path == s.runtime_metadata->0.workspace_path
                    && c.runtime_metadata->0.project_id == s.runtime_metadata->0.project_id
                    && c.runtime_metadata->0.document == s.runtime_metadata->0.document
                    && c.runtime_metadata->0.subagent_type is None
                    && c.runtime_metadata->0.last_run_status is None
                    && c.runtime_metadata->0.last_run_error is None
                    && c.runtime_metadata->0.pending_injected_messages is None
                    && c.runtime_metadata->0.task_list_version is None
                    && c.runtime_metadata->0.todo_list_version is None
                    && c.runtime_metadata->0.session_inbox_admission is None
                &&& s.runtime_metadata is Some && c.runtime_metadata is None
                    ==> s.runtime_metadata->0.workspace_path is None
                    && s.runtime_metadata->0.project_id is None
                    && s.runtime_metadata->0.document.len() == 0
            }
        }),
{
}

/// Making images lead to another session's attachments changes nothing of a session but its
/// messages.
pub proof fn moving_attachments_is_narrow(s: SessionView, from: Seq<char>, to: Seq<char>)
    ensures
        (SessionView { messages: s.messages, ..moved_attachments(s, from, to) }) == s,
        moved_attachments(s, from, to).messages.len() == s.messages.len(),
{
}

/// A request to copy is taken where the two ids are valid and differ, the index knows the source at
/// a canonical place and does not know the target; a source that it does not know is not found.
pub proof fn what_may_be_copied(
    source: Seq<char>,
    target: Seq<char>,
    index: Map<Seq<char>, crate::index::SessionIndexEntryView>,
)
    ensures
        ({
            let r = copy_request(source, target, index);
            let asked = paths::id_check(source) is Ok && paths::id_check(target) is Ok && source
                != target;
            &&& !asked ==> r is Err
            &&& asked && !index.contains_key(source) ==> r == Ok::<
                Option<(Seq<char>, SessionKind, Seq<char>)>,
                ErrorView,
            >(None)
            &&& asked && index.contains_key(source) ==> (r is Ok <==> !index.contains_key(target)
                && source_identity(source, index[source].rel_path) is Ok)
            &&& r is Ok && r->Ok_0 is Some ==> {
                let (rel_path, kind, root) = r->Ok_0->0;
                &&& rel_path == index[source].rel_path
                &&& source_identity(source, rel_path) == Ok::<(SessionKind, Seq<char>), ErrorView>(
                    (kind, root),
                )
            }
        }),
{
}

/// A source is taken to be a root or a child by its directory alone: the directory of a root is
/// named after it under `sessions`, that of a child after it under the children of its root, and no
/// other place is canonical.
pub proof fn a_place_tells_a_source(source: Seq<char>, rel: Seq<char>)
    ensures
        ({
            let parts = text::pieces(rel, '/');
            let r = source_identity(source, rel);
            &&& r is Ok && r->Ok_0.0 == SessionKind::Root <==> parts == seq!["sessions"@, source]
            &&& r is Ok && r->Ok_0.0 == SessionKind::Root ==> r->Ok_0.1 == source
            &&& r is Ok && r->Ok_0.0 == SessionKind::Child ==> paths::id_check(r->Ok_0.1) is Ok
                && parts == seq!["sessions"@, r->Ok_0.1, "children"@, source]
            &&& parts.len() == 4 && parts[0] == "sessions"@ && parts[2] == "children"@ && parts[3]
                == source && paths::id_check(parts[1]) is Ok ==> r == Ok::<
                (SessionKind, Seq<char>),
                ErrorView,
            >((SessionKind::Child, parts[1]))
        }),
{
    let parts = text::pieces(rel, '/');
    let r = source_identity(source, rel);
    if r is Ok && r->Ok_0.0 == SessionKind::Root {
        assert(parts =~= seq!["sessions"@, source]);
    }
    if parts == seq!["sessions"@, source] {
        assert(parts.len() == 2);
    }
    if r is Ok && r->Ok_0.0 == SessionKind::Child {
        assert(parts =~= seq!["sessions"@, r->Ok_0.1, "children"@, source]);
    }
}

/// The three extensions of a copy journal stand for its three states, and no other name is one's.
pub proof fn three_extensions_mark_a_copy_journal(ext: Seq<char>)
    ensures
        copy_marker_state(Some("json"@)) == Some(SessionCopyJournalMarkerState::Prepared),
        copy_marker_state(Some("committing"@)) == Some(SessionCopyJournalMarkerState::Committing),
        copy_marker_state(Some("committed"@)) == Some(SessionCopyJournalMarkerState::Committed),
        ext != "json"@ && ext != "committing"@ && ext != "committed"@ ==> copy_marker_state(
            Some(ext),
        ) is None,
        copy_marker_state(None) is None,
{
    reveal_strlit("json");
    reveal_strlit("committing");
    reveal_strlit("committed");
    assert("json"@.len() == 4 && "committing"@.len() == 10 && "committed"@.len() == 9);
}

/// A copy journal is taken exactly where it is of the known version, is named by its own id, which
/// is a UUID, and names two different valid sessions.
pub proof fn what_makes_a_copy_journal(
    path: Seq<char>,
    j: CopyJournalView,
    parsed: Result<u128, Seq<char>>,
)
    ensures
        copy_journal_check(path, j, parsed) is Ok <==> j.version == 1 && parsed is Ok
            && paths::stem_of(path) == Some(j.transaction_id) && paths::id_check(j.source_id) is Ok
            && paths::id_check(j.target_id) is Ok && j.source_id != j.target_id,
{
}

/// A committed copy is taken up again exactly where its target is there and is a root of its own,
/// and then as it stands.
pub proof fn a_committed_copy_is_a_root(target: SessionView)
    ensures
        committed_target(Ok(Some(target))) is Ok <==> target.kind == SessionKind::Root
            && target.root_session_id == target.id,
        committed_target(Ok(Some(target))) is Ok ==> committed_target(Ok(Some(target)))->Ok_0
            == target,
        committed_target(Ok(None)) is Err,
{
}

/// What is said of these values is said of their own fields: none is left out or exchanged.
pub proof fn nothing_is_left_unseen(a: SessionCopyTransactionJournal)
    ensures
        a@.version == a.version && a@.transaction_id == a.transaction_id@,
        a@.source_id == a.source_id@ && a@.target_id == a.target_id@,
{
}

/// What a copy comes to is seen as it is: its plan, an identity, a request, or a failure.
pub proof fn copies_are_seen_whole(
    p: CopyPlan,
    kind: SessionKind,
    a: String,
    b: String,
    e: StorageError,
)
    ensures
        copy_plan_view(Ok(p)) == Ok::<(CopyJournalView, SessionView), ErrorView>(
            (p.journal@, p.copy@),
        ),
        copy_plan_view(Err(e)) == Err::<(CopyJournalView, SessionView), ErrorView>(e@),
        identity_view(Ok((kind, a))) == Ok::<(SessionKind, Seq<char>), ErrorView>((kind, a@)),
        identity_view(Err(e)) == Err::<(SessionKind, Seq<char>), ErrorView>(e@),
        request_view(Ok(None)) == Ok::<Option<(Seq<char>, SessionKind, Seq<char>)>, ErrorView>(None),
        request_view(Ok(Some((a, kind, b)))) == Ok::<
            Option<(Seq<char>, SessionKind, Seq<char>)>,
            ErrorView,
        >(Some((a@, kind, b@))),
        request_view(Err(e)) == Err::<Option<(Seq<char>, SessionKind, Seq<char>)>, ErrorView>(e@),
{
}

/// A copy is refused by the kind of what stands in its way: a source that is gone is not found, a
/// target that is there exists already, a place that is none is invalid data, and a source that is
/// its own target is refused with no special kind.
pub proof fn how_a_copy_is_refused(
    source: Seq<char>,
    target: Seq<char>,
    index: Map<Seq<char>, crate::index::SessionIndexEntryView>,
    s: SessionView,
    e: ErrorView,
    transaction_id: Seq<char>,
    now: Timestamp,
    audit_keys: Set<Seq<char>>,
    document: Seq<char>,
)
    ensures
        source_identity(source, index[source].rel_path) is Err ==> source_identity(
            source,
            index[source].rel_path,
        )->Err_0.kind == ErrorKind::InvalidData || source_identity(
            source,
            index[source].rel_path,
        )->Err_0.kind == ErrorKind::Other,
        text::pieces(index[source].rel_path, '/').len() != 2 && text::pieces(
            index[source].rel_path,
            '/',
        ).len() != 4 ==> source_identity(source, index[source].rel_path) is Err && source_identity(
            source,
            index[source].rel_path,
        )->Err_0.kind == ErrorKind::InvalidData,
        paths::id_check(source) is Ok && source == target ==> copy_request(source, target, index)
            is Err && copy_request(source, target, index)->Err_0.kind == ErrorKind::Other,
        paths::id_check(source) is Ok && paths::id_check(target) is Ok && source != target
            && index.contains_key(source) && index.contains_key(target) && source_identity(
            source,
            index[source].rel_path,
        ) is Ok ==> copy_request(source, target, index) is Err && copy_request(
            source,
            target,
            index,
        )->Err_0.kind == ErrorKind::AlreadyExists,
        ({
            let ask = |x: Result<Option<SessionView>, ErrorView>, there: Result<bool, ErrorView>|
                copy_plan(
                    source,
                    target,
                    x,
                    there,
                    transaction_id,
                    now,
                    audit_keys,
                    document,
                );
            &&& ask(Err(e), Ok(false)) == Err::<(CopyJournalView, SessionView), ErrorView>(e)
            &&& ask(Ok(None), Ok(false)) is Err && ask(Ok(None), Ok(false))->Err_0.kind
                == ErrorKind::NotFound
            &&& ask(Ok(Some(s)), Err(e)) == Err::<(CopyJournalView, SessionView), ErrorView>(e)
            &&& ask(Ok(Some(s)), Ok(true)) is Err && ask(Ok(Some(s)), Ok(true))->Err_0.kind
                == ErrorKind::AlreadyExists
            &&& ask(Ok(Some(s)), Ok(false)) is Ok
        }),
        committed_target(Err(e)) == Err::<SessionView, ErrorView>(e),
        committed_target(Ok(None)) is Err && committed_target(Ok(None))->Err_0.kind
            == ErrorKind::NotFound,
        committed_target(Ok(Some(s))) is Err ==> committed_target(Ok(Some(s)))->Err_0.kind
            == ErrorKind::InvalidData,
{
}

/// A copy journal that is not one is refused as invalid data, but for an id that can be no session's.
pub proof fn how_a_copy_journal_is_refused(
    path: Seq<char>,
    j: CopyJournalView,
    parsed: Result<u128, Seq<char>>,
)
    ensures
        copy_journal_check(path, j, parsed) is Err && paths::id_check(j.source_id) is Ok
            && paths::id_check(j.target_id) is Ok ==> copy_journal_check(path, j, parsed)->Err_0.kind
            == ErrorKind::InvalidData,
{
}

} // verus!
