//! The one writer of what a Supervisor manages: its Project scope and its links to roots.
use crate::error::{ErrorKind, ErrorView, StorageError};
use crate::error;
use crate::load::runtime_sidecar_snapshot;
use crate::load;
use crate::session::{clone_texts, has_member, same_set, ManagedLink, ManagedLinkView, Session, SessionAuthorityIdentity, SessionKind, SessionView, SupervisorManagementState, SupervisorManagementStateView};
use crate::session;
use crate::strmap::StrMap;
use crate::strmap;
use crate::task_journal;
use crate::text::same_text;
use crate::text;
use crate::textset::{distinct_count, insert_text};
use crate::textset;
use vstd::prelude::*;

verus! {

/// A request that a Supervisor cannot make.
pub fn invalid(message: &str) -> (e: StorageError)
    ensures
        e@ == error::plain_error(ErrorKind::InvalidInput, message@),
{
    StorageError::new(ErrorKind::InvalidInput, message.to_owned())
}

/// A request that a Supervisor may not make.
pub fn denied(message: &str) -> (e: StorageError)
    ensures
        e@ == error::plain_error(ErrorKind::PermissionDenied, message@),
{
    StorageError::new(ErrorKind::PermissionDenied, message.to_owned())
}

/// A request that a Supervisor cannot make.
pub open spec fn invalid_request(message: Seq<char>) -> ErrorView {
    error::plain_error(ErrorKind::InvalidInput, message)
}

/// A request that a Supervisor may not make.
pub open spec fn denied_request(message: Seq<char>) -> ErrorView {
    error::plain_error(ErrorKind::PermissionDenied, message)
}

/// The revision after another, where there is one.
pub open spec fn revision_after(revision: u64) -> Result<u64, ErrorView> {
    if revision < u64::MAX {
        Ok((revision + 1) as u64)
    } else {
        Err(invalid_request("Supervisor revision exhausted"@))
    }
}

/// The revision after another, where there is one.
pub fn next_revision(revision: u64) -> (r: Result<u64, StorageError>)
    ensures
        error::plain_view(r) == revision_after(revision),
{
    match revision.checked_add(1) {
        Some(n) => Ok(n),
        None => Err(invalid("Supervisor revision exhausted")),
    }
}

/// What holds of every Supervisor: the id of its session, how much it may manage, and the
/// version of its written form.
pub struct ManagementPolicy {
    pub supervisor_id: String,
    pub max_projects: usize,
    pub max_links: usize,
    pub schema_version: u32,
}

/// Which Supervisor a request speaks for.
#[derive(Debug)]
pub struct SupervisorReference {
    pub session_id: String,
    pub incarnation_id: u128,
}

/// What a [`SupervisorReference`] holds.
#[verifier::ext_equal]
pub struct ReferenceView {
    pub session_id: Seq<char>,
    pub incarnation_id: u128,
}

impl View for SupervisorReference {
    type V = ReferenceView;

    open spec fn view(&self) -> ReferenceView {
        ReferenceView { session_id: self.session_id@, incarnation_id: self.incarnation_id }
    }
}

impl SupervisorReference {
    /// A second copy of the reference.
    pub fn duplicate(&self) -> (r: SupervisorReference)
        ensures
            r@ == self@,
    {
        SupervisorReference {
            session_id: self.session_id.as_str().to_owned(),
            incarnation_id: self.incarnation_id,
        }
    }
}

/// What checking a reference gives.
pub open spec fn reference_check(
    reference: SupervisorReference,
    policy: ManagementPolicy,
) -> Result<(), ErrorView> {
    if reference.session_id@ != policy.supervisor_id@ || reference.incarnation_id == 0 {
        Err(denied_request("a canonical Supervisor reference is required"@))
    } else {
        Ok(())
    }
}

/// Accepts a reference to the one Supervisor only.
pub fn reference_is_valid(reference: &SupervisorReference, policy: &ManagementPolicy) -> (r: Result<
    (),
    StorageError,
>)
    ensures
        error::plain_view(r) == reference_check(*reference, *policy),
{
    if !same_text(&reference.session_id, &policy.supervisor_id) || reference.incarnation_id == 0 {
        return Err(denied("a canonical Supervisor reference is required"));
    }
    Ok(())
}

/// What checking a target id gives, where `shape` says what is wrong with its shape.
pub open spec fn target_id_check(
    target: Seq<char>,
    shape: Option<Seq<char>>,
    policy: ManagementPolicy,
) -> Result<(), ErrorView> {
    match shape {
        Some(message) => Err(invalid_request(message)),
        None => if target == policy.supervisor_id@ {
            Err(denied_request("the Supervisor cannot manage itself"@))
        } else {
            Ok(())
        },
    }
}

/// Accepts a target id of the right shape that is not the Supervisor's own.
pub fn target_id_is_valid(target: &str, shape: &Option<String>, policy: &ManagementPolicy) -> (r:
    Result<(), StorageError>)
    ensures
        error::plain_view(r) == target_id_check(target@, session::opt_text(*shape), *policy),
{
    match shape {
        Some(message) => {
            return Err(invalid(message));
        },
        None => {},
    }
    if same_text(target, &policy.supervisor_id) {
        return Err(denied("the Supervisor cannot manage itself"));
    }
    Ok(())
}

/// The Project of a target, where `parsed` is its Project id as it parses.
pub open spec fn project_of_target(
    target: SessionView,
    parsed: Option<Seq<char>>,
) -> Result<Seq<char>, ErrorView> {
    if target.authority_identity != SessionAuthorityIdentity::Ordinary || target.kind
        != SessionKind::Root {
        Err(denied_request("a target must be an independent Ordinary Root"@))
    } else if target.project() is None {
        Err(denied_request("target has no Project"@))
    } else {
        match parsed {
            None => Err(denied_request("target has an invalid Project"@)),
            Some(p) => Ok(p),
        }
    }
}

/// The Project of a target: it has to be an ordinary root with a valid one.
pub fn target_project(target: &Session, parsed: &Option<String>) -> (r: Result<String, StorageError>)
    ensures
        error::result_view(r) == project_of_target(target@, session::opt_text(*parsed)),
{
    if target.authority_identity != SessionAuthorityIdentity::Ordinary || target.kind
        != SessionKind::Root {
        return Err(denied("a target must be an independent Ordinary Root"));
    }
    if target.project_id_meta().is_none() {
        return Err(denied("target has no Project"));
    }
    match parsed {
        None => Err(denied("target has an invalid Project")),
        Some(p) => Ok(p.clone()),
    }
}

/// What a Supervisor manages before anything was configured.
pub open spec fn nothing_managed(
    incarnation_id: u128,
    schema_version: u32,
) -> SupervisorManagementStateView {
    SupervisorManagementStateView {
        schema_version,
        incarnation_id,
        revision: 0,
        allowed_projects: Set::empty(),
        links: Map::empty(),
    }
}

/// What a Supervisor manages before anything was configured.
pub fn empty_state(incarnation_id: u128, schema_version: u32) -> (r: SupervisorManagementState)
    ensures
        r@ == nothing_managed(incarnation_id, schema_version),
{
    let r = SupervisorManagementState {
        schema_version,
        incarnation_id,
        revision: 0,
        allowed_projects: Vec::new(),
        links: StrMap::new(),
    };
    assert(text::texts(r.allowed_projects@) =~= Seq::<Seq<char>>::empty());
    assert(r@.allowed_projects =~= Set::<Seq<char>>::empty());
    assert(r@.links =~= Map::<Seq<char>, ManagedLinkView>::empty());
    r
}

/// The Supervisor that a request speaks for.
pub open spec fn supervisor_of(
    reference: SupervisorReference,
    loaded: Result<Option<SessionView>, ErrorView>,
) -> Result<SessionView, ErrorView> {
    match loaded {
        Err(e) => Err(e),
        Ok(None) => Err(denied_request("Supervisor does not exist"@)),
        Ok(Some(s)) => if s.authority_identity != (SessionAuthorityIdentity::Supervisor {
            incarnation_id: reference.incarnation_id,
        }) {
            Err(
                denied_request("Supervisor incarnation does not match canonical authority"@),
            )
        } else {
            Ok(s)
        },
    }
}

/// The Supervisor that a request speaks for, where `loaded` is its canonical authority.
pub fn management_supervisor_locked(
    reference: &SupervisorReference,
    loaded: Result<Option<Session>, StorageError>,
) -> (r: Result<Session, StorageError>)
    ensures
        error::result_view(r) == supervisor_of(*reference, task_journal::load_view(loaded)),
{
    match loaded {
        Err(e) => Err(e),
        Ok(None) => Err(denied("Supervisor does not exist")),
        Ok(Some(s)) => match s.authority_identity {
            SessionAuthorityIdentity::Supervisor { incarnation_id } => {
                if incarnation_id != reference.incarnation_id {
                    Err(denied("Supervisor incarnation does not match canonical authority"))
                } else {
                    Ok(s)
                }
            },
            _ => Err(denied("Supervisor incarnation does not match canonical authority")),
        },
    }
}

/// What the Supervisor manages.
pub open spec fn state_of(
    s: SessionView,
    incarnation_id: u128,
    schema_version: u32,
) -> SupervisorManagementStateView {
    match s.supervisor_management {
        Some(m) => m,
        None => nothing_managed(incarnation_id, schema_version),
    }
}

fn managed_state(session: &Session, incarnation_id: u128, schema_version: u32) -> (r:
    SupervisorManagementState)
    ensures
        r@ == state_of(session@, incarnation_id, schema_version),
{
    match &session.supervisor_management {
        Some(m) => m.duplicate(),
        None => empty_state(incarnation_id, schema_version),
    }
}

// ------------------------------------------------------------------------------ scope

/// The Project scope of a Supervisor at a revision.
pub struct SupervisorScopeObservation {
    pub supervisor: SupervisorReference,
    pub state_revision: u64,
    pub allowed_projects: Vec<String>,
}

/// What a [`SupervisorScopeObservation`] holds.
#[verifier::ext_equal]
pub struct ScopeView {
    pub supervisor: ReferenceView,
    pub state_revision: u64,
    pub allowed_projects: Set<Seq<char>>,
}

impl View for SupervisorScopeObservation {
    type V = ScopeView;

    open spec fn view(&self) -> ScopeView {
        ScopeView {
            supervisor: self.supervisor@,
            state_revision: self.state_revision,
            allowed_projects: textset::text_set(self.allowed_projects@),
        }
    }
}

/// The Project scope that a request sees.
pub open spec fn scope_of(
    reference: SupervisorReference,
    policy: ManagementPolicy,
    loaded: Result<Option<SessionView>, ErrorView>,
) -> Result<ScopeView, ErrorView> {
    match reference_check(reference, policy) {
        Err(e) => Err(e),
        Ok(_) => match supervisor_of(reference, loaded) {
            Err(e) => Err(e),
            Ok(s) => {
                let state = state_of(s, reference.incarnation_id, policy.schema_version);
                Ok(
                    ScopeView {
                        supervisor: reference@,
                        state_revision: state.revision,
                        allowed_projects: state.allowed_projects,
                    },
                )
            },
        },
    }
}

/// Reads the Project scope of a Supervisor.
pub fn management_scope(
    reference: &SupervisorReference,
    policy: &ManagementPolicy,
    loaded: Result<Option<Session>, StorageError>,
) -> (r: Result<SupervisorScopeObservation, StorageError>)
    ensures
        error::result_view(r) == scope_of(*reference, *policy, task_journal::load_view(loaded)),
{
    match reference_is_valid(reference, policy) {
        Err(e) => {
            return Err(e);
        },
        Ok(_) => {},
    }
    match management_supervisor_locked(reference, loaded) {
        Err(e) => Err(e),
        Ok(s) => {
            let state = managed_state(&s, reference.incarnation_id, policy.schema_version);
            let r = SupervisorScopeObservation {
                supervisor: reference.duplicate(),
                state_revision: state.revision,
                allowed_projects: state.allowed_projects,
            };
            Ok(r)
        },
    }
}

// -------------------------------------------------------------------------- mutations

/// What a request changes.
pub enum SupervisorManagementMutation {
    ConfigureProjectScope { allowed_projects: Vec<String> },
    Attach { target_session_id: String },
    Detach { target_session_id: String },
}

/// A request to change what a Supervisor manages, made at a revision.
pub struct SupervisorManagementRequest {
    pub supervisor: SupervisorReference,
    pub expected_state_revision: u64,
    pub mutation: SupervisorManagementMutation,
}

/// A link after the scope became `allowed`: one to a Project outside it becomes a tombstone.
pub open spec fn narrowed(l: ManagedLinkView, allowed: Set<Seq<char>>) -> ManagedLinkView {
    if l.enabled && !allowed.contains(l.target_project_id) {
        ManagedLinkView { revision: (l.revision + 1) as u64, enabled: false, ..l }
    } else {
        l
    }
}

/// Whether some link that has to become a tombstone has no revision left.
pub open spec fn link_exhausted(
    links: Map<Seq<char>, ManagedLinkView>,
    allowed: Set<Seq<char>>,
) -> bool {
    exists|k: Seq<char>|
        #[trigger] links.contains_key(k) && links[k].enabled && !allowed.contains(
            links[k].target_project_id,
        ) && links[k].revision == u64::MAX
}

/// The links after the scope became `allowed`.
pub open spec fn narrowed_links(
    links: Map<Seq<char>, ManagedLinkView>,
    allowed: Set<Seq<char>>,
) -> Map<Seq<char>, ManagedLinkView> {
    links.map_values(|l: ManagedLinkView| narrowed(l, allowed))
}

fn narrow_link(l: &ManagedLink, allowed: &Vec<String>) -> (r: Result<ManagedLink, StorageError>)
    ensures
        error::result_view(r) == if l@.enabled && !textset::text_set(allowed@).contains(l@.target_project_id)
            && l@.revision == u64::MAX {
            Err(invalid_request("Supervisor revision exhausted"@))
        } else {
            Ok(narrowed(l@, textset::text_set(allowed@)))
        },
{
    let mut n = l.duplicate();
    if l.enabled && !has_member(allowed, &l.target_project_id) {
        match next_revision(l.revision) {
            Err(e) => {
                return Err(e);
            },
            Ok(v) => {
                n.revision = v;
                n.enabled = false;
            },
        }
    }
    assert(n@ =~= narrowed(l@, textset::text_set(allowed@)));
    Ok(n)
}

fn narrow_links(m: &StrMap<ManagedLink>, allowed: &Vec<String>) -> (r: Result<
    StrMap<ManagedLink>,
    StorageError,
>)
    ensures
        match r {
            Ok(n) => !link_exhausted(session::link_map(*m), textset::text_set(allowed@)) && session::link_map(n)
                == narrowed_links(session::link_map(*m), textset::text_set(allowed@)),
            Err(e) => link_exhausted(session::link_map(*m), textset::text_set(allowed@)) && e@ == invalid_request(
                "Supervisor revision exhausted"@,
            ),
        },
{
    let ghost scope = textset::text_set(allowed@);
    let n: usize = m.len();
    let mut r: StrMap<ManagedLink> = StrMap::new();
    let mut i: usize = 0;
    while i < n
        invariant
            i <= n,
            n == m.pairs().len(),
            scope == textset::text_set(allowed@),
            crate::strmap::describes(m.pairs(), m@),
            forall|k: Seq<char>| #[trigger]
                r@.contains_key(k) <==> strmap::has_key(m.pairs().take(i as int), k),
            forall|k: Seq<char>| #[trigger]
                r@.contains_key(k) ==> m@.contains_key(k) && r@[k]@ == narrowed(m@[k]@, scope)
                    && !(m@[k]@.enabled && !scope.contains(m@[k]@.target_project_id)
                    && m@[k]@.revision == u64::MAX),
        decreases n - i,
    {
        let ghost before = r@;
        let ghost p = m.pairs();
        let key = m.key_at(i).clone();
        assert(p[i as int].0@ == key@);
        assert(m@.contains_key(key@) && m@[key@] == p[i as int].1);
        let value = match narrow_link(m.value_at(i), allowed) {
            Err(e) => {
                assert(session::link_map(*m).contains_key(key@));
                return Err(e);
            },
            Ok(v) => v,
        };
        r.insert(key, value);
        proof {
            assert forall|k: Seq<char>| #[trigger]
                r@.contains_key(k) <==> strmap::has_key(p.take(i + 1), k) by {
                if before.contains_key(k) {
                    let j = crate::strmap::key_index(p.take(i as int), k);
                    assert(p.take(i as int)[j].0@ == k);
                    assert(p.take(i + 1)[j].0@ == k);
                }
                if k == key@ {
                    assert(p.take(i + 1)[i as int].0@ == k);
                }
                if strmap::has_key(p.take(i + 1), k) {
                    let j = crate::strmap::key_index(p.take(i + 1), k);
                    assert(p.take(i + 1)[j].0@ == k);
                    if j < i {
                        assert(p.take(i as int)[j].0@ == k);
                    }
                }
            }
        }
        i = i + 1;
    }
    proof {
        assert(m.pairs().take(n as int) =~= m.pairs());
        assert forall|k: Seq<char>| m@.contains_key(k) implies r@.contains_key(k) by {
            assert(strmap::has_key(m.pairs(), k));
        }
        assert(session::link_map(r) =~= narrowed_links(session::link_map(*m), scope));
        assert forall|k: Seq<char>| #[trigger] session::link_map(*m).contains_key(k) implies !(session::link_map(
            *m,
        )[k].enabled && !scope.contains(session::link_map(*m)[k].target_project_id) && session::link_map(
            *m,
        )[k].revision == u64::MAX) by {
            assert(r@.contains_key(k));
        }
    }
    Ok(r)
}

/// The state under another Project scope, and whether that is a change.
pub open spec fn configured(
    state: SupervisorManagementStateView,
    allowed: Set<Seq<char>>,
) -> Result<(SupervisorManagementStateView, bool), ErrorView> {
    if state.allowed_projects == allowed {
        Ok((state, false))
    } else if link_exhausted(state.links, allowed) {
        Err(invalid_request("Supervisor revision exhausted"@))
    } else {
        Ok(
            (
                SupervisorManagementStateView {
                    allowed_projects: allowed,
                    links: narrowed_links(state.links, allowed),
                    ..state
                },
                true,
            ),
        )
    }
}

/// The link to a target as it is now.
pub open spec fn link_to(target: SessionView, project: Seq<char>, revision: u64) -> ManagedLinkView {
    ManagedLinkView {
        revision,
        enabled: true,
        target_created_at: target.created_at,
        target_project_id: project,
        target_metadata_version: target.metadata_version,
    }
}

/// Whether a link is one to the target as it is now.
pub open spec fn links_to(l: ManagedLinkView, target: SessionView, project: Seq<char>) -> bool {
    l == link_to(target, project, l.revision)
}

/// The state with a link to a target, and whether that is a change.
pub open spec fn attached(
    state: SupervisorManagementStateView,
    id: Seq<char>,
    target: Result<Option<SessionView>, ErrorView>,
    parsed: Option<Seq<char>>,
    max_links: usize,
) -> Result<(SupervisorManagementStateView, bool), ErrorView> {
    match target {
        Err(e) => Err(e),
        Ok(None) => Err(denied_request("target Root does not exist"@)),
        Ok(Some(t)) => match project_of_target(t, parsed) {
            Err(e) => Err(e),
            Ok(project) => if !state.allowed_projects.contains(project) {
                Err(
                    denied_request("target Project is outside configured Supervisor scope"@),
                )
            } else if state.links.contains_key(id) && links_to(state.links[id], t, project) {
                Ok((state, false))
            } else if !state.links.contains_key(id) && state.links.dom().len() >= max_links {
                Err(invalid_request("Supervisor link/tombstone capacity exceeded"@))
            } else {
                let previous = if state.links.contains_key(id) {
                    state.links[id].revision
                } else {
                    0
                };
                match revision_after(previous) {
                    Err(e) => Err(e),
                    Ok(revision) => Ok(
                        (
                            SupervisorManagementStateView {
                                links: state.links.insert(id, link_to(t, project, revision)),
                                ..state
                            },
                            true,
                        ),
                    ),
                }
            },
        },
    }
}

/// The state with the link to a target made a tombstone, and whether that is a change.
pub open spec fn detached(state: SupervisorManagementStateView, id: Seq<char>) -> Result<
    (SupervisorManagementStateView, bool),
    ErrorView,
> {
    if state.links.contains_key(id) && state.links[id].enabled {
        match revision_after(state.links[id].revision) {
            Err(e) => Err(e),
            Ok(revision) => Ok(
                (
                    SupervisorManagementStateView {
                        links: state.links.insert(
                            id,
                            ManagedLinkView { revision, enabled: false, ..state.links[id] },
                        ),
                        ..state
                    },
                    true,
                ),
            ),
        }
    } else {
        Ok((state, false))
    }
}

/// The state after a mutation, and whether it changed.
pub open spec fn mutated(
    state: SupervisorManagementStateView,
    mutation: SupervisorManagementMutation,
    target: Result<Option<SessionView>, ErrorView>,
    parsed: Option<Seq<char>>,
    max_links: usize,
) -> Result<(SupervisorManagementStateView, bool), ErrorView> {
    match mutation {
        SupervisorManagementMutation::ConfigureProjectScope { allowed_projects } => configured(
            state,
            textset::text_set(allowed_projects@),
        ),
        SupervisorManagementMutation::Attach { target_session_id } => attached(
            state,
            target_session_id@,
            target,
            parsed,
            max_links,
        ),
        SupervisorManagementMutation::Detach { target_session_id } => detached(
            state,
            target_session_id@,
        ),
    }
}

/// What a mutation gave.
pub open spec fn mutated_view(
    r: Result<(SupervisorManagementState, bool), StorageError>,
) -> Result<(SupervisorManagementStateView, bool), ErrorView> {
    match r {
        Ok(p) => Ok((p.0@, p.1)),
        Err(e) => Err(e@),
    }
}

fn configure(state: SupervisorManagementState, allowed: &Vec<String>) -> (r: Result<
    (SupervisorManagementState, bool),
    StorageError,
>)
    ensures
        mutated_view(r) == configured(state@, textset::text_set(allowed@)),
{
    if same_set(&state.allowed_projects, allowed) {
        return Ok((state, false));
    }
    match narrow_links(&state.links, allowed) {
        Err(e) => Err(e),
        Ok(links) => {
            let ghost before = state@;
            let next = SupervisorManagementState {
                allowed_projects: clone_texts(allowed),
                links,
                ..state
            };
            assert(next@ =~= (SupervisorManagementStateView {
                allowed_projects: textset::text_set(allowed@),
                links: narrowed_links(before.links, textset::text_set(allowed@)),
                ..before
            }));
            Ok((next, true))
        },
    }
}

fn attach(
    state: SupervisorManagementState,
    id: &str,
    target: Result<Option<Session>, StorageError>,
    parsed: &Option<String>,
    max_links: usize,
) -> (r: Result<(SupervisorManagementState, bool), StorageError>)
    ensures
        mutated_view(r) == attached(state@, id@, task_journal::load_view(target), session::opt_text(*parsed), max_links),
{
    let t = match target {
        Err(e) => {
            return Err(e);
        },
        Ok(None) => {
            return Err(denied("target Root does not exist"));
        },
        Ok(Some(t)) => t,
    };
    let project = match target_project(&t, parsed) {
        Err(e) => {
            return Err(e);
        },
        Ok(p) => p,
    };
    if !has_member(&state.allowed_projects, &project) {
        return Err(denied("target Project is outside configured Supervisor scope"));
    }
    let mut previous: u64 = 0;
    let mut known = false;
    match state.links.get(id) {
        Some(l) => {
            known = true;
            previous = l.revision;
            if l.enabled && l.target_created_at == t.created_at && same_text(
                &l.target_project_id,
                &project,
            ) && l.target_metadata_version == t.metadata_version {
                assert(links_to(l@, t@, project@));
                return Ok((state, false));
            }
            assert(!links_to(l@, t@, project@));
        },
        None => {},
    }
    let count: usize = state.links.len();
    assert(state@.links.dom() =~= state.links@.dom());
    if !known && count >= max_links {
        return Err(invalid("Supervisor link/tombstone capacity exceeded"));
    }
    match next_revision(previous) {
        Err(e) => Err(e),
        Ok(revision) => {
            let ghost before = state@;
            let link = ManagedLink {
                revision,
                enabled: true,
                target_created_at: t.created_at,
                target_project_id: project,
                target_metadata_version: t.metadata_version,
            };
            let mut next = state;
            next.links.insert(id.to_owned(), link);
            assert(next@.links =~= before.links.insert(id@, link_to(t@, project@, revision)));
            assert(next@ =~= (SupervisorManagementStateView { links: next@.links, ..before }));
            Ok((next, true))
        },
    }
}

fn detach(state: SupervisorManagementState, id: &str) -> (r: Result<
    (SupervisorManagementState, bool),
    StorageError,
>)
    ensures
        mutated_view(r) == detached(state@, id@),
{
    let link = match state.links.get(id) {
        None => {
            return Ok((state, false));
        },
        Some(l) => l.duplicate(),
    };
    if !link.enabled {
        return Ok((state, false));
    }
    match next_revision(link.revision) {
        Err(e) => Err(e),
        Ok(revision) => {
            let ghost before = state@;
            let tombstone = ManagedLink { revision, enabled: false, ..link };
            let mut next = state;
            next.links.insert(id.to_owned(), tombstone);
            assert(next@.links =~= before.links.insert(
                id@,
                ManagedLinkView { revision, enabled: false, ..before.links[id@] },
            ));
            assert(next@ =~= (SupervisorManagementStateView { links: next@.links, ..before }));
            Ok((next, true))
        },
    }
}

/// What a request is answered.
#[derive(Debug)]
pub struct SupervisorManagementReceipt {
    pub supervisor: SupervisorReference,
    pub state_revision: u64,
    pub changed: bool,
    /// The revision of the link that the request speaks of, if there is one.
    pub link_revision: Option<u64>,
}

/// What a [`SupervisorManagementReceipt`] holds.
#[verifier::ext_equal]
pub struct ReceiptView {
    pub supervisor: ReferenceView,
    pub state_revision: u64,
    pub changed: bool,
    pub link_revision: Option<u64>,
}

impl View for SupervisorManagementReceipt {
    type V = ReceiptView;

    open spec fn view(&self) -> ReceiptView {
        ReceiptView {
            supervisor: self.supervisor@,
            state_revision: self.state_revision,
            changed: self.changed,
            link_revision: self.link_revision,
        }
    }
}

/// What a request comes to: its answer, and where it is a change the Supervisor's runtime
/// sidecar to be written before it is given.
pub struct ManagementPlan {
    pub sidecar: Option<Session>,
    pub receipt: SupervisorManagementReceipt,
}

/// What a [`ManagementPlan`] holds.
#[verifier::ext_equal]
pub struct ManagementPlanView {
    pub sidecar: Option<SessionView>,
    pub receipt: ReceiptView,
}

impl View for ManagementPlan {
    type V = ManagementPlanView;

    open spec fn view(&self) -> ManagementPlanView {
        ManagementPlanView { sidecar: session::opt_view(self.sidecar), receipt: self.receipt@ }
    }
}

/// What checking a mutation before anything is loaded gives.
pub open spec fn mutation_check(
    mutation: SupervisorManagementMutation,
    shape: Option<Seq<char>>,
    policy: ManagementPolicy,
) -> Result<(), ErrorView> {
    match mutation {
        SupervisorManagementMutation::ConfigureProjectScope { allowed_projects } => if textset::text_set(
            allowed_projects@,
        ).len() > policy.max_projects {
            Err(invalid_request("Supervisor Project scope capacity exceeded"@))
        } else {
            Ok(())
        },
        SupervisorManagementMutation::Attach { target_session_id } => target_id_check(
            target_session_id@,
            shape,
            policy,
        ),
        SupervisorManagementMutation::Detach { target_session_id } => target_id_check(
            target_session_id@,
            shape,
            policy,
        ),
    }
}

/// The revision of the link that a mutation speaks of.
pub open spec fn mentioned_link(
    mutation: SupervisorManagementMutation,
    links: Map<Seq<char>, ManagedLinkView>,
) -> Option<u64> {
    let id = match mutation {
        SupervisorManagementMutation::ConfigureProjectScope { .. } => None,
        SupervisorManagementMutation::Attach { target_session_id } => Some(target_session_id@),
        SupervisorManagementMutation::Detach { target_session_id } => Some(target_session_id@),
    };
    match id {
        None => None,
        Some(k) => if links.contains_key(k) {
            Some(links[k].revision)
        } else {
            None
        },
    }
}

/// What a mutation of the Supervisor `s` comes to.
pub open spec fn planned(
    s: SessionView,
    request: SupervisorManagementRequest,
    policy: ManagementPolicy,
    target: Result<Option<SessionView>, ErrorView>,
    parsed: Option<Seq<char>>,
) -> Result<ManagementPlanView, ErrorView> {
    let state = state_of(s, request.supervisor.incarnation_id, policy.schema_version);
    if state.revision != request.expected_state_revision {
        Err(
            error::conflict_error(
                ErrorKind::WouldBlock,
                "Supervisor management revision changed; reload scope before retrying"@,
            ),
        )
    } else {
        match mutated(state, request.mutation, target, parsed, policy.max_links) {
            Err(e) => Err(e),
            Ok((next, changed)) => if !changed {
                Ok(
                    ManagementPlanView {
                        sidecar: None,
                        receipt: ReceiptView {
                            supervisor: request.supervisor@,
                            state_revision: state.revision,
                            changed: false,
                            link_revision: mentioned_link(request.mutation, state.links),
                        },
                    },
                )
            } else {
                match revision_after(state.revision) {
                    Err(e) => Err(e),
                    Ok(revision) => Ok(
                        ManagementPlanView {
                            sidecar: Some(
                                load::sidecar_of(
                                    SessionView {
                                        supervisor_management: Some(
                                            SupervisorManagementStateView { revision, ..next },
                                        ),
                                        ..s
                                    },
                                ),
                            ),
                            receipt: ReceiptView {
                                supervisor: request.supervisor@,
                                state_revision: revision,
                                changed: true,
                                link_revision: mentioned_link(request.mutation, next.links),
                            },
                        },
                    ),
                }
            },
        }
    }
}

/// What a request comes to.
pub open spec fn management_plan(
    request: SupervisorManagementRequest,
    policy: ManagementPolicy,
    shape: Option<Seq<char>>,
    loaded: Result<Option<SessionView>, ErrorView>,
    target: Result<Option<SessionView>, ErrorView>,
    parsed: Option<Seq<char>>,
) -> Result<ManagementPlanView, ErrorView> {
    match reference_check(request.supervisor, policy) {
        Err(e) => Err(e),
        Ok(_) => match mutation_check(request.mutation, shape, policy) {
            Err(e) => Err(e),
            Ok(_) => match supervisor_of(request.supervisor, loaded) {
                Err(e) => Err(e),
                Ok(s) => planned(s, request, policy, target, parsed),
            },
        },
    }
}

fn check_mutation(
    mutation: &SupervisorManagementMutation,
    shape: &Option<String>,
    policy: &ManagementPolicy,
) -> (r: Result<(), StorageError>)
    ensures
        error::plain_view(r) == mutation_check(*mutation, session::opt_text(*shape), *policy),
{
    match mutation {
        SupervisorManagementMutation::ConfigureProjectScope { allowed_projects } => {
            let n: usize = distinct_count(allowed_projects);
            if n > policy.max_projects {
                Err(invalid("Supervisor Project scope capacity exceeded"))
            } else {
                Ok(())
            }
        },
        SupervisorManagementMutation::Attach { target_session_id } => target_id_is_valid(
            target_session_id,
            shape,
            policy,
        ),
        SupervisorManagementMutation::Detach { target_session_id } => target_id_is_valid(
            target_session_id,
            shape,
            policy,
        ),
    }
}

fn link_mentioned(mutation: &SupervisorManagementMutation, links: &StrMap<ManagedLink>) -> (r: Option<
    u64,
>)
    ensures
        r == mentioned_link(*mutation, session::link_map(*links)),
{
    let found = match mutation {
        SupervisorManagementMutation::ConfigureProjectScope { .. } => None,
        SupervisorManagementMutation::Attach { target_session_id } => links.get(target_session_id),
        SupervisorManagementMutation::Detach { target_session_id } => links.get(target_session_id),
    };
    match found {
        Some(l) => Some(l.revision),
        None => None,
    }
}

/// Decides a request to change what a Supervisor manages. `shape` says what is wrong with the
/// shape of the target id, `loaded` is the canonical authority of the Supervisor, `target` that
/// of the target of an attachment and `parsed` its Project id as it parses.
pub fn management_mutate(
    request: &SupervisorManagementRequest,
    policy: &ManagementPolicy,
    shape: &Option<String>,
    loaded: Result<Option<Session>, StorageError>,
    target: Result<Option<Session>, StorageError>,
    parsed: &Option<String>,
) -> (r: Result<ManagementPlan, StorageError>)
    ensures
        error::result_view(r) == management_plan(
            *request,
            *policy,
            session::opt_text(*shape),
            task_journal::load_view(loaded),
            task_journal::load_view(target),
            session::opt_text(*parsed),
        ),
{
    match reference_is_valid(&request.supervisor, policy) {
        Err(e) => {
            return Err(e);
        },
        Ok(_) => {},
    }
    match check_mutation(&request.mutation, shape, policy) {
        Err(e) => {
            return Err(e);
        },
        Ok(_) => {},
    }
    let mut current = match management_supervisor_locked(&request.supervisor, loaded) {
        Err(e) => {
            return Err(e);
        },
        Ok(s) => s,
    };
    let ghost before = current@;
    let state = managed_state(&current, request.supervisor.incarnation_id, policy.schema_version);
    let revision: u64 = state.revision;
    if revision != request.expected_state_revision {
        return Err(
            StorageError::conflict(
                ErrorKind::WouldBlock,
                "Supervisor management revision changed; reload scope before retrying".to_owned(),
            ),
        );
    }
    let outcome = match &request.mutation {
        SupervisorManagementMutation::ConfigureProjectScope { allowed_projects } => configure(
            state,
            allowed_projects,
        ),
        SupervisorManagementMutation::Attach { target_session_id } => attach(
            state,
            target_session_id,
            target,
            parsed,
            policy.max_links,
        ),
        SupervisorManagementMutation::Detach { target_session_id } => detach(
            state,
            target_session_id,
        ),
    };
    let (mut next, changed) = match outcome {
        Err(e) => {
            return Err(e);
        },
        Ok(p) => p,
    };
    let link_revision = link_mentioned(&request.mutation, &next.links);
    if !changed {
        return Ok(
            ManagementPlan {
                sidecar: None,
                receipt: SupervisorManagementReceipt {
                    supervisor: request.supervisor.duplicate(),
                    state_revision: revision,
                    changed: false,
                    link_revision,
                },
            },
        );
    }
    match next_revision(revision) {
        Err(e) => Err(e),
        Ok(n) => {
            let ghost advanced = SupervisorManagementStateView { revision: n, ..next@ };
            next.revision = n;
            assert(next@ =~= advanced);
            current.supervisor_management = Some(next);
            assert(current@ =~= (SessionView {
                supervisor_management: Some(advanced),
                ..before
            }));
            Ok(
                ManagementPlan {
                    sidecar: Some(runtime_sidecar_snapshot(&current)),
                    receipt: SupervisorManagementReceipt {
                        supervisor: request.supervisor.duplicate(),
                        state_revision: n,
                        changed: true,
                        link_revision,
                    },
                },
            )
        },
    }
}

/// A planned change, let through where the new state is a valid one.
pub open spec fn accepted(plan: ManagementPlanView, fault: Option<Seq<char>>) -> Result<
    ManagementPlanView,
    ErrorView,
> {
    match fault {
        Some(message) => if plan.receipt.changed {
            Err(invalid_request(message))
        } else {
            Ok(plan)
        },
        None => Ok(plan),
    }
}

/// Lets a planned change through only where the new state is a valid one: `fault` says what is
/// wrong with it.
pub fn accept_management(plan: ManagementPlan, fault: &Option<String>) -> (r: Result<
    ManagementPlan,
    StorageError,
>)
    ensures
        error::result_view(r) == accepted(plan@, session::opt_text(*fault)),
{
    match fault {
        Some(message) => if plan.receipt.changed {
            Err(invalid(message))
        } else {
            Ok(plan)
        },
        None => Ok(plan),
    }
}

/// The sessions that are locked for an operation on a Supervisor and perhaps a target, in the
/// order in which every operation locks them.
pub fn management_session_locks(policy: &ManagementPolicy, target: &Option<String>) -> (r: Vec<
    String,
>)
    ensures
        textset::ascending(r@),
        textset::text_set(r@) == match *target {
            Some(t) => Set::empty().insert(policy.supervisor_id@).insert(t@),
            None => Set::empty().insert(policy.supervisor_id@),
        },
{
    let mut ids: Vec<String> = Vec::new();
    assert(text::texts(ids@) =~= Seq::<Seq<char>>::empty());
    assert(textset::text_set(ids@) =~= Set::<Seq<char>>::empty());
    insert_text(&mut ids, &policy.supervisor_id);
    match target {
        Some(t) => insert_text(&mut ids, t),
        None => {},
    }
    ids
}

/// The target that is locked for a request.
pub open spec fn target_locked(mutation: SupervisorManagementMutation) -> Option<Seq<char>> {
    match mutation {
        SupervisorManagementMutation::Attach { target_session_id } => Some(target_session_id@),
        _ => None,
    }
}

/// The target that is locked for a request: that of an attachment only, so that a target that
/// cannot be locked never keeps a link from being revoked.
pub fn locked_target(mutation: &SupervisorManagementMutation) -> (r: Option<String>)
    ensures
        session::opt_text(r) == target_locked(*mutation),
{
    match mutation {
        SupervisorManagementMutation::Attach { target_session_id } => Some(
            target_session_id.clone(),
        ),
        _ => None,
    }
}

// ------------------------------------------------------------------------------- links

/// What a Supervisor sees of its link to a target.
pub struct SupervisorLinkObservation {
    pub supervisor: SupervisorReference,
    pub state_revision: u64,
    pub target_session_id: String,
    pub link: Option<ManagedLink>,
    /// Whether the link is in force for the target as it is now.
    pub authorized: bool,
}

/// What a [`SupervisorLinkObservation`] holds.
#[verifier::ext_equal]
pub struct LinkObservationView {
    pub supervisor: ReferenceView,
    pub state_revision: u64,
    pub target_session_id: Seq<char>,
    pub link: Option<ManagedLinkView>,
    pub authorized: bool,
}

impl View for SupervisorLinkObservation {
    type V = LinkObservationView;

    open spec fn view(&self) -> LinkObservationView {
        LinkObservationView {
            supervisor: self.supervisor@,
            state_revision: self.state_revision,
            target_session_id: self.target_session_id@,
            link: session::opt_view(self.link),
            authorized: self.authorized,
        }
    }
}

/// Whether an enabled link is in force for the target as it is now.
pub open spec fn link_in_force(
    state: SupervisorManagementStateView,
    l: ManagedLinkView,
    target: SessionView,
    parsed: Option<Seq<char>>,
) -> bool {
    match project_of_target(target, parsed) {
        Err(_) => false,
        Ok(project) => project == l.target_project_id && state.allowed_projects.contains(project)
            && target.created_at == l.target_created_at && target.metadata_version
            == l.target_metadata_version,
    }
}

/// What a Supervisor sees of its link to a target.
pub open spec fn link_observation(
    reference: SupervisorReference,
    target_id: Seq<char>,
    policy: ManagementPolicy,
    shape: Option<Seq<char>>,
    loaded: Result<Option<SessionView>, ErrorView>,
    target: Result<Option<SessionView>, ErrorView>,
    parsed: Option<Seq<char>>,
) -> Result<LinkObservationView, ErrorView> {
    match reference_check(reference, policy) {
        Err(e) => Err(e),
        Ok(_) => match target_id_check(target_id, shape, policy) {
            Err(e) => Err(e),
            Ok(_) => match supervisor_of(reference, loaded) {
                Err(e) => Err(e),
                Ok(s) => {
                    let state = state_of(s, reference.incarnation_id, policy.schema_version);
                    let seen = LinkObservationView {
                        supervisor: reference@,
                        state_revision: state.revision,
                        target_session_id: target_id,
                        link: if state.links.contains_key(target_id) {
                            Some(state.links[target_id])
                        } else {
                            None
                        },
                        authorized: false,
                    };
                    if seen.link is Some && seen.link->0.enabled {
                        match target {
                            Err(e) => Err(e),
                            Ok(None) => Ok(seen),
                            Ok(Some(t)) => Ok(
                                LinkObservationView {
                                    authorized: link_in_force(state, seen.link->0, t, parsed),
                                    ..seen
                                },
                            ),
                        }
                    } else {
                        Ok(seen)
                    }
                },
            },
        },
    }
}

/// Reads a Supervisor's link to a target, and whether it is in force for the target as it is
/// now. The target counts only where the link is enabled.
pub fn management_link(
    reference: &SupervisorReference,
    target_id: &str,
    policy: &ManagementPolicy,
    shape: &Option<String>,
    loaded: Result<Option<Session>, StorageError>,
    target: Result<Option<Session>, StorageError>,
    parsed: &Option<String>,
) -> (r: Result<SupervisorLinkObservation, StorageError>)
    ensures
        error::result_view(r) == link_observation(
            *reference,
            target_id@,
            *policy,
            session::opt_text(*shape),
            task_journal::load_view(loaded),
            task_journal::load_view(target),
            session::opt_text(*parsed),
        ),
{
    match reference_is_valid(reference, policy) {
        Err(e) => {
            return Err(e);
        },
        Ok(_) => {},
    }
    match target_id_is_valid(target_id, shape, policy) {
        Err(e) => {
            return Err(e);
        },
        Ok(_) => {},
    }
    let current = match management_supervisor_locked(reference, loaded) {
        Err(e) => {
            return Err(e);
        },
        Ok(s) => s,
    };
    let state = managed_state(&current, reference.incarnation_id, policy.schema_version);
    let link = match state.links.get(target_id) {
        Some(l) => Some(l.duplicate()),
        None => None,
    };
    let mut authorized = false;
    match &link {
        Some(l) => {
            if l.enabled {
                match target {
                    Err(e) => {
                        return Err(e);
                    },
                    Ok(None) => {},
                    Ok(Some(t)) => {
                        authorized = match target_project(&t, parsed) {
                            Err(_) => false,
                            Ok(project) => same_text(&project, &l.target_project_id)
                                && has_member(&state.allowed_projects, &project) && t.created_at
                                == l.target_created_at && t.metadata_version
                                == l.target_metadata_version,
                        };
                    },
                }
            }
        },
        None => {},
    }
    Ok(
        SupervisorLinkObservation {
            supervisor: reference.duplicate(),
            state_revision: state.revision,
            target_session_id: target_id.to_owned(),
            link,
            authorized,
        },
    )
}

// ------------------------------------------------------------------------------- laws

/// Whether every enabled link is to a Project in scope.
pub open spec fn links_in_scope(state: SupervisorManagementStateView) -> bool {
    forall|k: Seq<char>| #[trigger]
        state.links.contains_key(k) && state.links[k].enabled ==> state.allowed_projects.contains(
            state.links[k].target_project_id,
        )
}

/// Every mutation keeps enabled links in scope: narrowing the scope revokes what falls outside
/// it, and no link to another Project can be attached.
pub proof fn enabled_links_stay_in_scope(
    state: SupervisorManagementStateView,
    mutation: SupervisorManagementMutation,
    target: Result<Option<SessionView>, ErrorView>,
    parsed: Option<Seq<char>>,
    max_links: usize,
)
    requires
        links_in_scope(state),
        mutated(state, mutation, target, parsed, max_links) is Ok,
    ensures
        links_in_scope(mutated(state, mutation, target, parsed, max_links)->Ok_0.0),
{
}

/// No mutation forgets a link or takes its revision back, and one whose content changes gets a
/// higher revision.
pub proof fn link_revisions_only_rise(
    state: SupervisorManagementStateView,
    mutation: SupervisorManagementMutation,
    target: Result<Option<SessionView>, ErrorView>,
    parsed: Option<Seq<char>>,
    max_links: usize,
    k: Seq<char>,
)
    requires
        mutated(state, mutation, target, parsed, max_links) is Ok,
        state.links.contains_key(k),
    ensures
        ({
            let next = mutated(state, mutation, target, parsed, max_links)->Ok_0.0;
            &&& next.links.contains_key(k)
            &&& next.links[k] == state.links[k] || next.links[k].revision > state.links[k].revision
        }),
{
}

/// A request changes the state revision by exactly one where it changes anything, and writes
/// nothing otherwise; what it writes differs from the Supervisor in what it manages alone.
pub proof fn a_change_advances_the_revision_by_one(
    s: SessionView,
    request: SupervisorManagementRequest,
    policy: ManagementPolicy,
    target: Result<Option<SessionView>, ErrorView>,
    parsed: Option<Seq<char>>,
)
    requires
        planned(s, request, policy, target, parsed) is Ok,
    ensures
        ({
            let p = planned(s, request, policy, target, parsed)->Ok_0;
            let old_revision = state_of(
                s,
                request.supervisor.incarnation_id,
                policy.schema_version,
            ).revision;
            &&& request.expected_state_revision == old_revision
            &&& p.receipt.supervisor == request.supervisor@
            &&& p.receipt.changed == (p.sidecar is Some)
            &&& p.receipt.state_revision == old_revision + if p.receipt.changed {
                1int
            } else {
                0int
            }
            &&& p.sidecar is Some ==> p.sidecar->0.supervisor_management is Some
                && p.sidecar->0.supervisor_management->0.revision == p.receipt.state_revision
                && p.sidecar->0 == (SessionView {
                supervisor_management: p.sidecar->0.supervisor_management,
                ..load::sidecar_of(s)
            })
        }),
{
    let p = planned(s, request, policy, target, parsed)->Ok_0;
    if p.sidecar is Some {
        assert(p.sidecar->0 =~= (SessionView {
            supervisor_management: p.sidecar->0.supervisor_management,
            ..load::sidecar_of(s)
        }));
    }
}

/// Revoking a link never asks the target: a detachment comes to the same whatever the target is,
/// also where it cannot be read, and afterwards the link is not in force.
pub proof fn detaching_never_asks_the_target(
    s: SessionView,
    request: SupervisorManagementRequest,
    policy: ManagementPolicy,
    target: Result<Option<SessionView>, ErrorView>,
    other: Result<Option<SessionView>, ErrorView>,
    parsed: Option<Seq<char>>,
    other_parsed: Option<Seq<char>>,
)
    requires
        request.mutation is Detach,
    ensures
        planned(s, request, policy, target, parsed) == planned(
            s,
            request,
            policy,
            other,
            other_parsed,
        ),
        planned(s, request, policy, target, parsed) is Ok ==> ({
            let p = planned(s, request, policy, target, parsed)->Ok_0;
            let state = if p.sidecar is Some {
                p.sidecar->0.supervisor_management->0
            } else {
                state_of(s, request.supervisor.incarnation_id, policy.schema_version)
            };
            let id = request.mutation->Detach_target_session_id@;
            state.links.contains_key(id) ==> !state.links[id].enabled
        }),
{
}

/// An attachment that is repeated with nothing changed in between changes nothing, and the link
/// that it made is in force.
pub proof fn attaching_twice_is_attaching_once(
    state: SupervisorManagementStateView,
    id: Seq<char>,
    t: SessionView,
    parsed: Option<Seq<char>>,
    max_links: usize,
)
    requires
        attached(state, id, Ok(Some(t)), parsed, max_links) is Ok,
    ensures
        ({
            let next = attached(state, id, Ok(Some(t)), parsed, max_links)->Ok_0.0;
            &&& attached(next, id, Ok(Some(t)), parsed, max_links) == Ok::<
                (SupervisorManagementStateView, bool),
                ErrorView,
            >((next, false))
            &&& next.links.contains_key(id) && next.links[id].enabled
            &&& link_in_force(next, next.links[id], t, parsed)
        }),
{
}

/// A request made at another revision than the current one is refused as a conflict, and a
/// request for another incarnation is denied.
pub proof fn stale_requests_change_nothing(
    request: SupervisorManagementRequest,
    policy: ManagementPolicy,
    shape: Option<Seq<char>>,
    s: SessionView,
    target: Result<Option<SessionView>, ErrorView>,
    parsed: Option<Seq<char>>,
)
    ensures
        s.authority_identity != (SessionAuthorityIdentity::Supervisor {
            incarnation_id: request.supervisor.incarnation_id,
        }) ==> management_plan(request, policy, shape, Ok(Some(s)), target, parsed) is Err,
        state_of(s, request.supervisor.incarnation_id, policy.schema_version).revision
            != request.expected_state_revision ==> management_plan(
            request,
            policy,
            shape,
            Ok(Some(s)),
            target,
            parsed,
        ) is Err,
{
}

/// A request is heard only from the one Supervisor's session under an incarnation, about a target
/// other than itself, and with no more Projects than the policy allows.
pub proof fn which_requests_are_heard(
    reference: SupervisorReference,
    mutation: SupervisorManagementMutation,
    shape: Option<Seq<char>>,
    policy: ManagementPolicy,
)
    ensures
        reference_check(reference, policy) is Ok <==> reference.session_id@ == policy.supervisor_id@
            && reference.incarnation_id != 0,
        match mutation {
            SupervisorManagementMutation::ConfigureProjectScope { allowed_projects } => (
            mutation_check(mutation, shape, policy) is Ok <==> textset::text_set(
                allowed_projects@,
            ).len() <= policy.max_projects),
            SupervisorManagementMutation::Attach { target_session_id } => (mutation_check(
                mutation,
                shape,
                policy,
            ) is Ok <==> shape is None && target_session_id@ != policy.supervisor_id@),
            SupervisorManagementMutation::Detach { target_session_id } => (mutation_check(
                mutation,
                shape,
                policy,
            ) is Ok <==> shape is None && target_session_id@ != policy.supervisor_id@),
        },
{
}

/// A Supervisor speaks for itself where its session holds the incarnation that the request names; it
/// manages what its session says, and nothing at revision zero before anything was configured.
pub proof fn a_supervisor_is_known_by_its_incarnation(
    reference: SupervisorReference,
    s: SessionView,
    schema_version: u32,
)
    ensures
        supervisor_of(reference, Ok(None)) is Err,
        supervisor_of(reference, Ok(None))->Err_0.kind == ErrorKind::PermissionDenied,
        s.authority_identity == (SessionAuthorityIdentity::Supervisor {
            incarnation_id: reference.incarnation_id,
        }) ==> supervisor_of(reference, Ok(Some(s))) == Ok::<SessionView, ErrorView>(s),
        s.authority_identity != (SessionAuthorityIdentity::Supervisor {
            incarnation_id: reference.incarnation_id,
        }) ==> supervisor_of(reference, Ok(Some(s))) is Err && supervisor_of(
            reference,
            Ok(Some(s)),
        )->Err_0.kind == ErrorKind::PermissionDenied,
        s.supervisor_management is Some ==> state_of(s, reference.incarnation_id, schema_version)
            == s.supervisor_management->0,
        s.supervisor_management is None ==> ({
            let m = state_of(s, reference.incarnation_id, schema_version);
            &&& m.schema_version == schema_version && m.incarnation_id == reference.incarnation_id
            &&& m.revision == 0
            &&& forall|p: Seq<char>| !#[trigger] m.allowed_projects.contains(p)
            &&& forall|k: Seq<char>| !#[trigger] m.links.contains_key(k)
        }),
{
}

/// A Supervisor sees the scope that its session says, at the revision it says.
pub proof fn a_scope_is_seen_as_it_is(
    reference: SupervisorReference,
    policy: ManagementPolicy,
    s: SessionView,
)
    requires
        reference.session_id@ == policy.supervisor_id@,
        reference.incarnation_id != 0,
        s.authority_identity == (SessionAuthorityIdentity::Supervisor {
            incarnation_id: reference.incarnation_id,
        }),
        s.supervisor_management is Some,
    ensures
        ({
            let r = scope_of(reference, policy, Ok(Some(s)));
            &&& r is Ok
            &&& r->Ok_0.supervisor.session_id == reference.session_id@
            &&& r->Ok_0.supervisor.incarnation_id == reference.incarnation_id
            &&& r->Ok_0.state_revision == s.supervisor_management->0.revision
            &&& r->Ok_0.allowed_projects == s.supervisor_management->0.allowed_projects
        }),
{
}

/// Only an ordinary root with a Project that parses is a target, and its Project is what parsed.
pub proof fn which_sessions_are_targets(target: SessionView, parsed: Option<Seq<char>>)
    ensures
        project_of_target(target, parsed) is Ok <==> target.authority_identity
            == SessionAuthorityIdentity::Ordinary && target.kind == SessionKind::Root
            && target.project() is Some && parsed is Some,
        project_of_target(target, parsed) is Ok ==> Some(project_of_target(target, parsed)->Ok_0)
            == parsed,
        project_of_target(target, parsed) is Err ==> project_of_target(target, parsed)->Err_0.kind
            == ErrorKind::PermissionDenied,
{
}

/// Configuring makes the scope exactly what was asked for. Every link stays on record; one that was
/// enabled and falls outside the scope is disabled at its next revision, and every other is as it
/// was. It fails only where such a link has no next revision, and changes nothing where the scope
/// was the same.
pub proof fn configuring_sets_the_scope(
    state: SupervisorManagementStateView,
    allowed: Set<Seq<char>>,
)
    ensures
        configured(state, allowed) is Err <==> state.allowed_projects != allowed && exists|
            k: Seq<char>,
        | #[trigger]
            state.links.contains_key(k) && state.links[k].enabled && !allowed.contains(
                state.links[k].target_project_id,
            ) && state.links[k].revision == u64::MAX,
        configured(state, allowed) is Err ==> configured(state, allowed)->Err_0.kind
            == ErrorKind::InvalidInput,
        configured(state, allowed) is Ok ==> ({
            let (next, changed) = configured(state, allowed)->Ok_0;
            &&& changed <==> state.allowed_projects != allowed
            &&& !changed ==> next == state
            &&& next.allowed_projects == allowed
            &&& next.schema_version == state.schema_version
            &&& next.incarnation_id == state.incarnation_id
            &&& next.revision == state.revision
            &&& forall|k: Seq<char>| #[trigger]
                next.links.contains_key(k) <==> state.links.contains_key(k)
            &&& changed ==> forall|k: Seq<char>| #[trigger]
                next.links.contains_key(k) && (!state.links[k].enabled || allowed.contains(
                    state.links[k].target_project_id,
                )) ==> next.links[k] == state.links[k]
            &&& changed ==> forall|k: Seq<char>| #[trigger]
                next.links.contains_key(k) && state.links[k].enabled && !allowed.contains(
                    state.links[k].target_project_id,
                ) ==> !next.links[k].enabled && next.links[k].revision == state.links[k].revision + 1
                    && next.links[k].target_created_at == state.links[k].target_created_at
                    && next.links[k].target_project_id == state.links[k].target_project_id
                    && next.links[k].target_metadata_version
                    == state.links[k].target_metadata_version
        }),
{
    if configured(state, allowed) is Ok && state.allowed_projects != allowed {
        let (next, changed) = configured(state, allowed)->Ok_0;
        assert forall|k: Seq<char>| #[trigger]
            next.links.contains_key(k) && state.links[k].enabled && !allowed.contains(
                state.links[k].target_project_id,
            ) implies !next.links[k].enabled && next.links[k].revision == state.links[k].revision + 1
            && next.links[k].target_created_at == state.links[k].target_created_at
            && next.links[k].target_project_id == state.links[k].target_project_id
            && next.links[k].target_metadata_version == state.links[k].target_metadata_version by {
            assert(state.links.contains_key(k));
        }
    }
}

/// Attaching links the target as it is now, enabled, at the revision after the one on record; every
/// other link and the rest of the state stay. It succeeds exactly for a target whose Project is in
/// scope, while there is room for another link and a next revision, and changes nothing where the
/// very link is on record already.
pub proof fn attaching_links_the_target(
    state: SupervisorManagementStateView,
    id: Seq<char>,
    t: SessionView,
    parsed: Option<Seq<char>>,
    max_links: usize,
)
    ensures
        ({
            let r = attached(state, id, Ok(Some(t)), parsed, max_links);
            let same = state.links.contains_key(id) && state.links[id].enabled
                && state.links[id].target_created_at == t.created_at && Some(
                state.links[id].target_project_id,
            ) == parsed && state.links[id].target_metadata_version == t.metadata_version;
            &&& r is Ok <==> t.authority_identity == SessionAuthorityIdentity::Ordinary && t.kind
                == SessionKind::Root && t.project() is Some && parsed is Some
                && state.allowed_projects.contains(parsed->0) && (same || (
            !state.links.contains_key(id) && state.links.dom().len() < max_links) || (
            state.links.contains_key(id) && state.links[id].revision < u64::MAX))
            &&& r is Ok ==> ({
                let (next, changed) = r->Ok_0;
                &&& changed <==> !same
                &&& same ==> next == state
                &&& next.links.contains_key(id)
                &&& next.links[id].enabled && next.links[id].target_created_at == t.created_at
                    && Some(next.links[id].target_project_id) == parsed
                    && next.links[id].target_metadata_version == t.metadata_version
                &&& !same ==> next.links[id].revision == 1 + if state.links.contains_key(id) {
                    state.links[id].revision as int
                } else {
                    0
                }
                &&& forall|k: Seq<char>|
                    k != id ==> (#[trigger] next.links.contains_key(k) <==> state.links.contains_key(
                        k,
                    )) && (state.links.contains_key(k) ==> next.links[k] == state.links[k])
                &&& (SupervisorManagementStateView { links: state.links, ..next }) == state
            })
        }),
        attached(state, id, Ok(None), parsed, max_links) is Err,
{
}

/// Detaching disables an enabled link at its next revision and keeps everything else; where there is
/// no such link it changes nothing. It fails only where there is no next revision.
pub proof fn detaching_disables_the_link(state: SupervisorManagementStateView, id: Seq<char>)
    ensures
        ({
            let on = state.links.contains_key(id) && state.links[id].enabled;
            let r = detached(state, id);
            &&& r is Err <==> on && state.links[id].revision == u64::MAX
            &&& r is Ok ==> ({
                let (next, changed) = r->Ok_0;
                &&& changed <==> on
                &&& !on ==> next == state
                &&& on ==> next.links.contains_key(id) && !next.links[id].enabled
                    && next.links[id].revision == state.links[id].revision + 1
                    && next.links[id].target_created_at == state.links[id].target_created_at
                    && next.links[id].target_project_id == state.links[id].target_project_id
                    && next.links[id].target_metadata_version
                    == state.links[id].target_metadata_version
                &&& forall|k: Seq<char>|
                    k != id ==> (#[trigger] next.links.contains_key(k) <==> state.links.contains_key(
                        k,
                    )) && (state.links.contains_key(k) ==> next.links[k] == state.links[k])
                &&& (SupervisorManagementStateView { links: state.links, ..next }) == state
            })
        }),
{
}

/// A request at the current revision is carried out wherever its mutation is and, for a change,
/// the state has a next revision: what it writes is the mutated state at that revision, and it is
/// answered with the revision of the link that it speaks of as that is afterwards.
pub proof fn a_request_is_carried_out(
    request: SupervisorManagementRequest,
    policy: ManagementPolicy,
    shape: Option<Seq<char>>,
    s: SessionView,
    target: Result<Option<SessionView>, ErrorView>,
    parsed: Option<Seq<char>>,
)
    requires
        reference_check(request.supervisor, policy) is Ok,
        mutation_check(request.mutation, shape, policy) is Ok,
        s.authority_identity == (SessionAuthorityIdentity::Supervisor {
            incarnation_id: request.supervisor.incarnation_id,
        }),
        s.supervisor_management is Some,
    ensures
        ({
            let state = s.supervisor_management->0;
            let m = mutated(state, request.mutation, target, parsed, policy.max_links);
            let r = management_plan(request, policy, shape, Ok(Some(s)), target, parsed);
            &&& request.expected_state_revision != state.revision ==> r is Err
                && r->Err_0.authority_conflict && r->Err_0.kind == ErrorKind::WouldBlock
            &&& request.expected_state_revision == state.revision ==> (r is Ok <==> m is Ok && ({
                let (next, changed) = m->Ok_0;
                changed ==> state.revision < u64::MAX
            }))
            &&& r is Ok ==> ({
                let (next, changed) = m->Ok_0;
                &&& r->Ok_0.receipt.changed == changed
                &&& changed ==> r->Ok_0.sidecar is Some
                    && r->Ok_0.sidecar->0.supervisor_management == Some(
                    SupervisorManagementStateView { revision: (state.revision + 1) as u64, ..next },
                )
                &&& match request.mutation {
                    SupervisorManagementMutation::ConfigureProjectScope { .. } =>
                        r->Ok_0.receipt.link_revision is None,
                    SupervisorManagementMutation::Attach { target_session_id } =>
                        next.links.contains_key(target_session_id@) && r->Ok_0.receipt.link_revision
                            == Some(next.links[target_session_id@].revision),
                    SupervisorManagementMutation::Detach { target_session_id } => {
                        &&& next.links.contains_key(target_session_id@)
                            ==> r->Ok_0.receipt.link_revision == Some(
                            next.links[target_session_id@].revision,
                        )
                        &&& !next.links.contains_key(target_session_id@)
                            ==> r->Ok_0.receipt.link_revision is None
                    },
                }
            })
        }),
{
}

/// Each kind of request does its own work: a scope is configured, a target attached or detached.
pub proof fn each_request_does_its_work(
    state: SupervisorManagementStateView,
    target: Result<Option<SessionView>, ErrorView>,
    parsed: Option<Seq<char>>,
    max_links: usize,
    mutation: SupervisorManagementMutation,
)
    requires
        mutated(state, mutation, target, parsed, max_links) is Ok,
    ensures
        ({
            let (next, changed) = mutated(state, mutation, target, parsed, max_links)->Ok_0;
            match mutation {
                SupervisorManagementMutation::ConfigureProjectScope { allowed_projects } => forall|
                    p: Seq<char>,
                | #[trigger]
                    next.allowed_projects.contains(p) <==> textset::text_set(
                        allowed_projects@,
                    ).contains(p),
                SupervisorManagementMutation::Attach { target_session_id } =>
                    next.links.contains_key(target_session_id@)
                        && next.links[target_session_id@].enabled,
                SupervisorManagementMutation::Detach { target_session_id } =>
                    next.links.contains_key(target_session_id@)
                        ==> !next.links[target_session_id@].enabled,
            }
        }),
{
}

/// A link is seen as it is on record, and authorizes exactly where it is enabled, its Project is in
/// scope, and the target still is the ordinary root of that Project, that birth and that metadata
/// revision.
pub proof fn when_a_link_authorizes(
    reference: SupervisorReference,
    target_id: Seq<char>,
    policy: ManagementPolicy,
    s: SessionView,
    t: SessionView,
    parsed: Option<Seq<char>>,
)
    requires
        reference_check(reference, policy) is Ok,
        target_id != policy.supervisor_id@,
        s.authority_identity == (SessionAuthorityIdentity::Supervisor {
            incarnation_id: reference.incarnation_id,
        }),
        s.supervisor_management is Some,
    ensures
        ({
            let state = s.supervisor_management->0;
            let links = state.links;
            let r = link_observation(
                reference,
                target_id,
                policy,
                None,
                Ok(Some(s)),
                Ok(Some(t)),
                parsed,
            );
            &&& r is Ok
            &&& r->Ok_0.supervisor.session_id == reference.session_id@
            &&& r->Ok_0.supervisor.incarnation_id == reference.incarnation_id
            &&& r->Ok_0.state_revision == state.revision && r->Ok_0.target_session_id == target_id
            &&& links.contains_key(target_id) ==> r->Ok_0.link == Some(links[target_id])
            &&& !links.contains_key(target_id) ==> r->Ok_0.link is None
            &&& r->Ok_0.authorized <==> links.contains_key(target_id) && links[target_id].enabled
                && t.authority_identity == SessionAuthorityIdentity::Ordinary && t.kind
                == SessionKind::Root && t.project() is Some && parsed == Some(
                links[target_id].target_project_id,
            ) && state.allowed_projects.contains(links[target_id].target_project_id)
                && t.created_at == links[target_id].target_created_at && t.metadata_version
                == links[target_id].target_metadata_version
            &&& ({
                let gone = link_observation(
                    reference,
                    target_id,
                    policy,
                    None,
                    Ok(Some(s)),
                    Ok(None),
                    parsed,
                );
                gone is Ok && !gone->Ok_0.authorized && gone->Ok_0.link == r->Ok_0.link
            })
        }),
{
}

/// What is said of these values is said of their own fields: none is left out or exchanged.
pub proof fn nothing_is_left_unseen(
    a: SupervisorReference,
    b: SupervisorScopeObservation,
    c: SupervisorManagementReceipt,
    d: ManagementPlan,
    e: SupervisorLinkObservation,
)
    ensures
        a@.session_id == a.session_id@ && a@.incarnation_id == a.incarnation_id,
        forall|t: Seq<char>| #[trigger]
            b@.allowed_projects.contains(t) <==> exists|i: int|
                0 <= i < b.allowed_projects@.len() && (#[trigger] b.allowed_projects@[i])@ == t,
        b@.supervisor == b.supervisor@ && b@.state_revision == b.state_revision,
        c@.supervisor == c.supervisor@ && c@.state_revision == c.state_revision,
        c@.changed == c.changed && c@.link_revision == c.link_revision,
        d@.sidecar is Some <==> d.sidecar is Some,
        d.sidecar is Some ==> d@.sidecar->0 == d.sidecar->0@,
        d@.receipt == d.receipt@,
        e@.link is Some <==> e.link is Some,
        e.link is Some ==> e@.link->0 == e.link->0@,
        e@.supervisor == e.supervisor@ && e@.state_revision == e.state_revision,
        e@.target_session_id == e.target_session_id@ && e@.authorized == e.authorized,
{
    assert forall|t: Seq<char>| #[trigger]
        b@.allowed_projects.contains(t) <==> exists|i: int|
            0 <= i < b.allowed_projects@.len() && (#[trigger] b.allowed_projects@[i])@ == t by {
        crate::textset::lemma_text_set(b.allowed_projects@, t);
    }
}

/// A planned change is let through unchanged, but for one whose new state has a fault. Only the target
/// of an attachment is locked.
pub proof fn faulty_changes_are_refused(
    plan: ManagementPlanView,
    fault: Seq<char>,
    mutation: SupervisorManagementMutation,
)
    ensures
        accepted(plan, None) == Ok::<ManagementPlanView, ErrorView>(plan),
        !plan.receipt.changed ==> accepted(plan, Some(fault)) == Ok::<ManagementPlanView, ErrorView>(
            plan,
        ),
        plan.receipt.changed ==> accepted(plan, Some(fault)) is Err && accepted(
            plan,
            Some(fault),
        )->Err_0.message == fault && accepted(plan, Some(fault))->Err_0.kind
            == ErrorKind::InvalidInput,
        target_locked(mutation) is Some <==> mutation is Attach,
        mutation is Attach ==> target_locked(mutation)->0 == mutation->Attach_target_session_id@,
{
}

} // verus!
