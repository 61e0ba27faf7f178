//! Evidence of deleted roots: which births are revoked, and who may write after a deletion.
use crate::error::{ErrorKind, ErrorView, StorageError};
use crate::error;
use crate::index::{SessionIndexEntry, SessionIndexEntryView, SessionsIndex, SessionsIndexView};
use crate::outside::add_nanosecond;
use crate::outside;
use crate::paths::{extension, file_stem, validate_session_id};
use crate::paths;
use crate::probe::{Probe, SessionFile};
use crate::session::{has_member, Session, SessionKind, SessionView};
use crate::session;
use crate::strmap::StrMap;
use crate::strmap;
use crate::supervisor::validate_identity;
use crate::supervisor;
use crate::task_journal;
use crate::text::{is_blank, join2, same_text, trim};
use crate::text;
use crate::time::Timestamp;
use crate::time;
use vstd::prelude::*;

verus! {

/// A failure of the evidence.
pub open spec fn invalid_evidence(message: Seq<char>) -> ErrorView {
    error::plain_error(ErrorKind::InvalidData, message)
}

/// A failure of the evidence.
pub fn invalid(message: &str) -> (e: StorageError)
    ensures
        e@ == invalid_evidence(message@),
{
    StorageError::new(ErrorKind::InvalidData, message.to_owned())
}

/// A conflict with the lifetime of a root.
pub open spec fn lifetime_conflict(message: Seq<char>) -> ErrorView {
    error::conflict_error(
        ErrorKind::WouldBlock,
        "Root lifetime is revoked or unavailable: "@ + message,
    )
}

/// A conflict with the lifetime of a root.
pub fn conflict(message: &str) -> (e: StorageError)
    ensures
        e@ == lifetime_conflict(message@),
{
    StorageError::conflict(
        ErrorKind::WouldBlock,
        join2("Root lifetime is revoked or unavailable: ", message),
    )
}

/// Whether a directory of evidence is there.
pub open spec fn evidence_directory(p: Probe) -> Result<bool, ErrorView> {
    match p {
        Probe::Directory => Ok(true),
        Probe::Missing => Ok(false),
        Probe::Failed(e) => Err(e@),
        _ => Err(invalid_evidence("Root lifetime directory is not a real directory"@)),
    }
}

fn real_directory(p: &Probe) -> (r: Result<bool, StorageError>)
    ensures
        error::plain_view(r) == evidence_directory(*p),
{
    match p {
        Probe::Directory => Ok(true),
        Probe::Missing => Ok(false),
        Probe::Failed(e) => Err(e.clone()),
        _ => Err(invalid("Root lifetime directory is not a real directory")),
    }
}

/// Whether a file of evidence is there.
pub open spec fn evidence_file(p: Probe) -> Result<bool, ErrorView> {
    match p {
        Probe::File => Ok(true),
        Probe::Missing => Ok(false),
        Probe::Failed(e) => Err(e@),
        _ => Err(invalid_evidence("Root lifetime evidence is not a regular file"@)),
    }
}

fn regular_file_exists(p: &Probe) -> (r: Result<bool, StorageError>)
    ensures
        error::plain_view(r) == evidence_file(*p),
{
    match p {
        Probe::File => Ok(true),
        Probe::Missing => Ok(false),
        Probe::Failed(e) => Err(e.clone()),
        _ => Err(invalid("Root lifetime evidence is not a regular file")),
    }
}

// -------------------------------------------------------------------- revocations

/// The version of a written revocation.
pub const ROOT_REVOCATION_VERSION: u32 = 1;

/// That every birth of a root up to an instant is revoked.
pub struct RootRevocation {
    pub version: u32,
    pub session_id: String,
    pub revoked_through: Timestamp,
}

/// What a [`RootRevocation`] holds.
#[verifier::ext_equal]
pub struct RevocationView {
    pub version: u32,
    pub session_id: Seq<char>,
    pub revoked_through: Timestamp,
}

impl View for RootRevocation {
    type V = RevocationView;

    open spec fn view(&self) -> RevocationView {
        RevocationView {
            version: self.version,
            session_id: self.session_id@,
            revoked_through: self.revoked_through,
        }
    }
}

/// What reading a revocation gave.
pub enum RevocationFile {
    Failed(StorageError),
    /// The file holds no revocation; the text says why.
    Corrupt(String),
    Parsed(RootRevocation),
}

/// What was found of the revocation of a root.
pub struct RevocationEvidence {
    pub directory: Probe,
    pub file: Probe,
    pub content: RevocationFile,
}

/// The instant up to which births of a root are revoked, if any.
pub open spec fn revocation_of(id: Seq<char>, ev: RevocationEvidence) -> Result<
    Option<Timestamp>,
    ErrorView,
> {
    if paths::id_check(id) is Err {
        Err(paths::id_check(id)->Err_0)
    } else if evidence_directory(ev.directory) is Err {
        Err(evidence_directory(ev.directory)->Err_0)
    } else if evidence_directory(ev.directory) == Ok::<bool, ErrorView>(false) {
        Ok(None)
    } else if evidence_file(ev.file) is Err {
        Err(evidence_file(ev.file)->Err_0)
    } else if evidence_file(ev.file) == Ok::<bool, ErrorView>(false) {
        Ok(None)
    } else {
        match ev.content {
            RevocationFile::Failed(e) => Err(e@),
            RevocationFile::Corrupt(m) => Err(
                invalid_evidence("invalid Root revocation: "@ + m@),
            ),
            RevocationFile::Parsed(v) => if v.version != ROOT_REVOCATION_VERSION || v.session_id@
                != id {
                Err(invalid_evidence("Root revocation identity or version mismatch"@))
            } else {
                Ok(Some(v.revoked_through))
            },
        }
    }
}

/// Reads the instant up to which births of a root are revoked.
pub fn root_revocation(session_id: &str, evidence: &RevocationEvidence) -> (r: Result<
    Option<Timestamp>,
    StorageError,
>)
    ensures
        error::plain_view(r) == revocation_of(session_id@, *evidence),
{
    match validate_session_id(session_id) {
        Err(e) => {
            return Err(e);
        },
        Ok(_) => {},
    }
    match real_directory(&evidence.directory) {
        Err(e) => {
            return Err(e);
        },
        Ok(there) => {
            if !there {
                return Ok(None);
            }
        },
    }
    match regular_file_exists(&evidence.file) {
        Err(e) => {
            return Err(e);
        },
        Ok(there) => {
            if !there {
                return Ok(None);
            }
        },
    }
    match &evidence.content {
        RevocationFile::Failed(e) => Err(e.clone()),
        RevocationFile::Corrupt(m) => Err(invalid(&join2("invalid Root revocation: ", m))),
        RevocationFile::Parsed(v) => {
            if v.version != ROOT_REVOCATION_VERSION || !same_text(&v.session_id, session_id) {
                Err(invalid("Root revocation identity or version mismatch"))
            } else {
                Ok(Some(v.revoked_through))
            }
        },
    }
}

// -------------------------------------------------------------------------- births

/// The birth that a canonical file states.
pub struct RootBirth {
    pub id: String,
    pub created_at: Timestamp,
    pub kind: SessionKind,
    pub root_session_id: String,
    pub parent_session_id: Option<String>,
    pub spawn_depth: u32,
}

/// What reading a birth gave.
pub enum BirthFile {
    Failed(StorageError),
    /// The file states no birth; the text says why.
    Corrupt(String),
    Parsed(RootBirth),
}

/// What was found of the two canonical files of a root.
pub struct BirthEvidence {
    pub directory: Probe,
    pub main_file: Probe,
    pub main: BirthFile,
    pub runtime_file: Probe,
    pub runtime: BirthFile,
}

/// Whether a stated birth is that of the root at its place.
pub open spec fn birth_at_place(b: RootBirth, id: Seq<char>) -> bool {
    &&& b.id@ == id
    &&& b.kind == SessionKind::Root
    &&& b.root_session_id@.len() == 0 || b.root_session_id@ == id
    &&& b.parent_session_id is None
    &&& b.spawn_depth == 0
}

/// The birth that one file states, if it is there.
pub open spec fn stated_birth(p: Probe, content: BirthFile, id: Seq<char>) -> Result<
    Option<Timestamp>,
    ErrorView,
> {
    if evidence_file(p) is Err {
        Err(evidence_file(p)->Err_0)
    } else if evidence_file(p) == Ok::<bool, ErrorView>(false) {
        Ok(None)
    } else {
        match content {
            BirthFile::Failed(e) => Err(e@),
            BirthFile::Corrupt(m) => Err(
                invalid_evidence("invalid Root deletion identity: "@ + m@),
            ),
            BirthFile::Parsed(b) => if birth_at_place(b, id) {
                Ok(Some(b.created_at))
            } else {
                Err(
                    invalid_evidence("Root deletion identity does not match canonical placement"@),
                )
            },
        }
    }
}

/// The later of two births, where there are any.
pub open spec fn later_birth(a: Option<Timestamp>, b: Option<Timestamp>) -> Option<Timestamp> {
    match (a, b) {
        (Some(x), Some(y)) => Some(time::later_of(x, y)),
        (Some(x), None) => Some(x),
        (None, y) => y,
    }
}

/// The latest birth that the canonical files of a root state.
pub open spec fn birth_of(id: Seq<char>, ev: BirthEvidence) -> Result<Option<Timestamp>, ErrorView> {
    if paths::id_check(id) is Err {
        Err(paths::id_check(id)->Err_0)
    } else if evidence_directory(ev.directory) is Err {
        Err(evidence_directory(ev.directory)->Err_0)
    } else if evidence_directory(ev.directory) == Ok::<bool, ErrorView>(false) {
        Ok(None)
    } else {
        match stated_birth(ev.main_file, ev.main, id) {
            Err(e) => Err(e),
            Ok(a) => match stated_birth(ev.runtime_file, ev.runtime, id) {
                Err(e) => Err(e),
                Ok(b) => Ok(later_birth(a, b)),
            },
        }
    }
}

fn read_birth(p: &Probe, content: &BirthFile, id: &str) -> (r: Result<Option<Timestamp>, StorageError>)
    ensures
        error::plain_view(r) == stated_birth(*p, *content, id@),
{
    match regular_file_exists(p) {
        Err(e) => {
            return Err(e);
        },
        Ok(there) => {
            if !there {
                return Ok(None);
            }
        },
    }
    match content {
        BirthFile::Failed(e) => Err(e.clone()),
        BirthFile::Corrupt(m) => Err(invalid(&join2("invalid Root deletion identity: ", m))),
        BirthFile::Parsed(b) => {
            if !same_text(&b.id, id) || b.kind != SessionKind::Root || (
            !b.root_session_id.as_str().is_empty() && !same_text(&b.root_session_id, id))
                || b.parent_session_id.is_some() || b.spawn_depth != 0 {
                Err(invalid("Root deletion identity does not match canonical placement"))
            } else {
                Ok(Some(b.created_at))
            }
        },
    }
}

/// Reads the latest birth that the canonical files of a root state; a file that cannot be read
/// as one fails before anything is deleted.
pub fn canonical_root_birth(session_id: &str, evidence: &BirthEvidence) -> (r: Result<
    Option<Timestamp>,
    StorageError,
>)
    ensures
        error::plain_view(r) == birth_of(session_id@, *evidence),
{
    match validate_session_id(session_id) {
        Err(e) => {
            return Err(e);
        },
        Ok(_) => {},
    }
    match real_directory(&evidence.directory) {
        Err(e) => {
            return Err(e);
        },
        Ok(there) => {
            if !there {
                return Ok(None);
            }
        },
    }
    let a = match read_birth(&evidence.main_file, &evidence.main, session_id) {
        Err(e) => {
            return Err(e);
        },
        Ok(a) => a,
    };
    let b = match read_birth(&evidence.runtime_file, &evidence.runtime, session_id) {
        Err(e) => {
            return Err(e);
        },
        Ok(b) => b,
    };
    Ok(
        match (a, b) {
            (Some(x), Some(y)) => Some(x.latest(y)),
            (Some(x), None) => Some(x),
            (None, y) => y,
        },
    )
}

// ---------------------------------------------------------------------- revoking

/// What revoking a root comes to.
pub struct RevokePlan {
    /// Whether the root is revoked afterwards.
    pub revoked: bool,
    /// The revocation to be written, durably.
    pub write: Option<RootRevocation>,
}

/// What a [`RevokePlan`] holds.
#[verifier::ext_equal]
pub struct RevokePlanView {
    pub revoked: bool,
    pub write: Option<RevocationView>,
}

impl View for RevokePlan {
    type V = RevokePlanView;

    open spec fn view(&self) -> RevokePlanView {
        RevokePlanView { revoked: self.revoked, write: crate::session::opt_view(self.write) }
    }
}

/// What revoking a root comes to, given its revocation and birth so far.
pub open spec fn revoke_plan(
    id: Seq<char>,
    previous: Result<Option<Timestamp>, ErrorView>,
    birth: Result<Option<Timestamp>, ErrorView>,
) -> Result<RevokePlanView, ErrorView> {
    match previous {
        Err(e) => Err(e),
        Ok(p) => match birth {
            Err(e) => Err(e),
            Ok(None) => Ok(RevokePlanView { revoked: p is Some, write: None }),
            Ok(Some(b)) => Ok(
                RevokePlanView {
                    revoked: true,
                    write: Some(
                        RevocationView {
                            version: ROOT_REVOCATION_VERSION,
                            session_id: id,
                            revoked_through: match p {
                                Some(t) => time::later_of(t, b),
                                None => b,
                            },
                        },
                    ),
                },
            ),
        },
    }
}

/// Decides what revoking a root comes to.
pub fn revoke_root_lifetime(
    session_id: &str,
    previous: Result<Option<Timestamp>, StorageError>,
    birth: Result<Option<Timestamp>, StorageError>,
) -> (r: Result<RevokePlan, StorageError>)
    ensures
        error::result_view(r) == revoke_plan(session_id@, error::plain_view(previous), error::plain_view(birth)),
{
    let p = match previous {
        Err(e) => {
            return Err(e);
        },
        Ok(p) => p,
    };
    match birth {
        Err(e) => Err(e),
        Ok(None) => Ok(RevokePlan { revoked: p.is_some(), write: None }),
        Ok(Some(b)) => {
            let revoked_through = match p {
                Some(t) => t.latest(b),
                None => b,
            };
            Ok(
                RevokePlan {
                    revoked: true,
                    write: Some(
                        RootRevocation {
                            version: ROOT_REVOCATION_VERSION,
                            session_id: session_id.to_owned(),
                            revoked_through,
                        },
                    ),
                },
            )
        },
    }
}

/// Whether a request to delete a root finds anything to delete: a root that the index knows or
/// that stands at its place, or what is left of one that was revoked before.
pub fn finds_root_to_delete(
    indexed: bool,
    birth: &Option<Timestamp>,
    previous: &Option<Timestamp>,
    directory_there: bool,
) -> (r: bool)
    ensures
        r == (indexed || *birth is Some || (*previous is Some && directory_there)),
{
    indexed || birth.is_some() || (previous.is_some() && directory_there)
}

/// Whether a birth is past every revoked one.
pub open spec fn birth_live(cutoff: Option<Timestamp>, created_at: Timestamp) -> bool {
    match cutoff {
        None => true,
        Some(c) => time::before(c, created_at),
    }
}

/// Whether a birth is past every revoked one, where that can be told.
pub open spec fn birth_judged(
    revocation: Result<Option<Timestamp>, ErrorView>,
    created_at: Timestamp,
) -> Result<bool, ErrorView> {
    match revocation {
        Err(e) => Err(e),
        Ok(c) => Ok(birth_live(c, created_at)),
    }
}

/// Whether a birth is past every revoked one.
pub fn root_birth_is_live(
    revocation: Result<Option<Timestamp>, StorageError>,
    created_at: Timestamp,
) -> (r: Result<bool, StorageError>)
    ensures
        error::plain_view(r) == birth_judged(error::plain_view(revocation), created_at),
{
    match revocation {
        Err(e) => Err(e),
        Ok(None) => Ok(true),
        Ok(Some(c)) => Ok(c.is_before(created_at)),
    }
}

/// Whether what stands in a root's directory is of a revoked birth.
pub open spec fn directory_revoked(
    revocation: Result<Option<Timestamp>, ErrorView>,
    birth: Result<Option<Timestamp>, ErrorView>,
) -> Result<bool, ErrorView> {
    match revocation {
        Err(e) => Err(e),
        Ok(None) => Ok(false),
        Ok(Some(c)) => match birth {
            Err(e) => Err(e),
            Ok(None) => Ok(true),
            Ok(Some(b)) => Ok(!time::before(c, b)),
        },
    }
}

/// Whether what stands in a root's directory is of a revoked birth.
pub fn root_directory_is_revoked(
    revocation: Result<Option<Timestamp>, StorageError>,
    birth: Result<Option<Timestamp>, StorageError>,
) -> (r: Result<bool, StorageError>)
    ensures
        error::plain_view(r) == directory_revoked(error::plain_view(revocation), error::plain_view(birth)),
{
    match revocation {
        Err(e) => Err(e),
        Ok(None) => Ok(false),
        Ok(Some(c)) => match birth {
            Err(e) => Err(e),
            Ok(None) => Ok(true),
            Ok(Some(b)) => Ok(!c.is_before(b)),
        },
    }
}

// ---------------------------------------------------------------- reconciliation

/// A file among the revocations, and whether the directory of the root that it names is of a
/// revoked birth.
pub struct RevocationEntry {
    pub name: String,
    pub revoked: Result<bool, StorageError>,
}

/// The id of a root that an entry makes unavailable, if it does: one that cannot be judged
/// counts as revoked.
pub open spec fn revoked_id(e: RevocationEntry) -> Option<Seq<char>> {
    if paths::extension_of(e.name@) != Some("json"@) {
        None
    } else {
        match e.revoked {
            Ok(false) => None,
            _ => paths::stem_of(e.name@),
        }
    }
}

/// The ids of the roots that the entries make unavailable.
pub open spec fn revoked_ids(entries: Seq<RevocationEntry>) -> Seq<Seq<char>>
    decreases entries.len(),
{
    if entries.len() == 0 {
        Seq::empty()
    } else {
        let head = revoked_ids(entries.drop_last());
        match revoked_id(entries.last()) {
            Some(id) => head.push(id),
            None => head,
        }
    }
}

/// The ids of the roots that the revocations make unavailable.
pub fn revoked_roots(entries: &Vec<RevocationEntry>) -> (r: Vec<String>)
    ensures
        text::texts(r@) == revoked_ids(entries@),
{
    let mut ids: Vec<String> = Vec::new();
    let mut i: usize = 0;
    assert(entries@.take(0) =~= Seq::<RevocationEntry>::empty());
    assert(text::texts(ids@) =~= Seq::<Seq<char>>::empty());
    while i < entries.len()
        invariant
            i <= entries.len(),
            text::texts(ids@) == revoked_ids(entries@.take(i as int)),
        decreases entries.len() - i,
    {
        assert(entries@.take(i + 1).drop_last() =~= entries@.take(i as int));
        let json = match extension(&entries[i].name) {
            Some(x) => same_text(&x, "json"),
            None => false,
        };
        if json {
            let gone = match &entries[i].revoked {
                Ok(b) => *b,
                Err(_) => true,
            };
            if gone {
                match file_stem(&entries[i].name) {
                    Some(id) => {
                        let ghost before_push = ids@;
                        ids.push(id);
                        assert(text::texts(ids@) =~= text::texts(before_push).push(id@));
                    },
                    None => {},
                }
            }
        }
        i = i + 1;
    }
    assert(entries@.take(entries@.len() as int) =~= entries@);
    ids
}

/// Whether an entry of the index is one of a revoked root or of a child of one.
pub open spec fn entry_revoked(
    id: Seq<char>,
    e: SessionIndexEntryView,
    revoked: Seq<Seq<char>>,
) -> bool {
    revoked.contains(id) || revoked.contains(e.root_session_id)
}

/// The index without what belongs to revoked roots.
pub open spec fn without_revoked(index: SessionsIndexView, revoked: Seq<Seq<char>>) -> SessionsIndexView {
    SessionsIndexView {
        sessions: Map::new(
            |k: Seq<char>|
                index.sessions.contains_key(k) && !entry_revoked(k, index.sessions[k], revoked),
            |k: Seq<char>| index.sessions[k],
        ),
        ..index
    }
}

fn live_entries(m: &StrMap<SessionIndexEntry>, revoked: &Vec<String>) -> (r: StrMap<
    SessionIndexEntry,
>)
    ensures
        forall|k: Seq<char>| #[trigger]
            r@.contains_key(k) <==> m@.contains_key(k) && !entry_revoked(
                k,
                m@[k]@,
                text::texts(revoked@),
            ),
        forall|k: Seq<char>| #[trigger] r@.contains_key(k) ==> r@[k]@ == m@[k]@,
{
    let ghost gone = text::texts(revoked@);
    let n: usize = m.len();
    let mut r: StrMap<SessionIndexEntry> = StrMap::new();
    let mut i: usize = 0;
    while i < n
        invariant
            i <= n,
            n == m.pairs().len(),
            gone == text::texts(revoked@),
            crate::strmap::describes(m.pairs(), m@),
            forall|k: Seq<char>| #[trigger]
                r@.contains_key(k) <==> strmap::has_key(m.pairs().take(i as int), k) && !entry_revoked(
                    k,
                    m@[k]@,
                    gone,
                ),
            forall|k: Seq<char>| #[trigger]
                r@.contains_key(k) ==> m@.contains_key(k) && r@[k]@ == m@[k]@,
        decreases n - i,
    {
        let ghost earlier = r@;
        let ghost p = m.pairs();
        let key = m.key_at(i).clone();
        let entry = m.value_at(i);
        assert(p[i as int].0@ == key@);
        assert(m@.contains_key(key@) && m@[key@] == p[i as int].1);
        let dead = has_member(revoked, &key) || has_member(revoked, &entry.root_session_id);
        if !dead {
            let kept = entry.duplicate();
            r.insert(key.clone(), kept);
        }
        proof {
            assert forall|k: Seq<char>| #[trigger]
                r@.contains_key(k) <==> strmap::has_key(p.take(i + 1), k) && !entry_revoked(
                    k,
                    m@[k]@,
                    gone,
                ) by {
                if strmap::has_key(p.take(i as int), k) {
                    let j = crate::strmap::key_index(p.take(i as int), k);
                    assert(p.take(i as int)[j].0@ == k);
                    assert(p.take(i + 1)[j].0@ == k);
                }
                if k == key@ {
                    assert(p.take(i + 1)[i as int].0@ == k);
                }
                if strmap::has_key(p.take(i + 1), k) {
                    let j = crate::strmap::key_index(p.take(i + 1), k);
                    assert(p.take(i + 1)[j].0@ == k);
                    if j < i {
                        assert(p.take(i as int)[j].0@ == k);
                    }
                }
                assert(earlier.contains_key(k) <==> strmap::has_key(p.take(i as int), k)
                    && !entry_revoked(k, m@[k]@, gone));
            }
        }
        i = i + 1;
    }
    proof {
        assert(m.pairs().take(n as int) =~= m.pairs());
        assert forall|k: Seq<char>| m@.contains_key(k) implies strmap::has_key(m.pairs(), k) by {}
        assert forall|k: Seq<char>| strmap::has_key(m.pairs(), k) implies m@.contains_key(k) by {
            let j = crate::strmap::key_index(m.pairs(), k);
            assert(m.pairs()[j].0@ == k);
        }
    }
    r
}

/// Takes what belongs to revoked roots out of the index.
pub fn reconcile_root_revocations(index: &mut SessionsIndex, revoked: &Vec<String>)
    ensures
        final(index)@ == without_revoked(old(index)@, text::texts(revoked@)),
{
    let ghost original = index@;
    index.sessions = live_entries(&index.sessions, revoked);
    assert(index@.sessions =~= without_revoked(original, text::texts(revoked@)).sessions);
    assert(index@ =~= without_revoked(original, text::texts(revoked@)));
}

// ------------------------------------------------------------------------ liveness

/// What was found of the root of a child.
pub struct ParentEvidence {
    pub sessions_directory: Probe,
    pub directory: Probe,
    pub main_file: Probe,
    pub runtime_file: Probe,
    pub runtime: SessionFile,
}

/// Whether a session is the root at a place.
pub open spec fn root_at_place(s: SessionView, id: Seq<char>) -> bool {
    &&& s.id == id
    &&& s.kind == SessionKind::Root
    &&& s.root_session_id.len() == 0 || s.root_session_id == id
    &&& s.parent_session_id is None
    &&& s.spawn_depth == 0
}

/// Whether the root of a child is alive, where births up to `cutoff` are revoked.
pub open spec fn parent_live(
    root_id: Seq<char>,
    cutoff: Timestamp,
    ev: ParentEvidence,
    default_id: Seq<char>,
) -> Result<bool, ErrorView> {
    if evidence_directory(ev.sessions_directory) is Err {
        Err(evidence_directory(ev.sessions_directory)->Err_0)
    } else if evidence_directory(ev.sessions_directory) == Ok::<bool, ErrorView>(false) {
        Ok(false)
    } else if evidence_directory(ev.directory) is Err {
        Err(evidence_directory(ev.directory)->Err_0)
    } else if evidence_directory(ev.directory) == Ok::<bool, ErrorView>(false) {
        Ok(false)
    } else if evidence_file(ev.main_file) is Err {
        Err(evidence_file(ev.main_file)->Err_0)
    } else if evidence_file(ev.main_file) == Ok::<bool, ErrorView>(false) {
        Ok(false)
    } else if evidence_file(ev.runtime_file) is Err {
        Err(evidence_file(ev.runtime_file)->Err_0)
    } else if evidence_file(ev.runtime_file) == Ok::<bool, ErrorView>(false) {
        Ok(false)
    } else {
        match ev.runtime {
            SessionFile::Missing => Ok(false),
            SessionFile::Failed(e) => Err(e@),
            SessionFile::Corrupt(m) => Err(
                invalid_evidence("invalid parent Root runtime: "@ + m@),
            ),
            SessionFile::Parsed(p) => if supervisor::identity_check(p@, default_id) is Err {
                Err(supervisor::identity_check(p@, default_id)->Err_0)
            } else if !root_at_place(p@, root_id) {
                Err(
                    invalid_evidence(
                        "parent Root runtime identity does not match canonical placement"@,
                    ),
                )
            } else {
                Ok(time::before(cutoff, p@.created_at))
            },
        }
    }
}

fn parent_is_live(
    root_id: &str,
    cutoff: Timestamp,
    evidence: &ParentEvidence,
    default_id: &str,
) -> (r: Result<bool, StorageError>)
    ensures
        error::plain_view(r) == parent_live(root_id@, cutoff, *evidence, default_id@),
{
    match real_directory(&evidence.sessions_directory) {
        Err(e) => {
            return Err(e);
        },
        Ok(there) => {
            if !there {
                return Ok(false);
            }
        },
    }
    match real_directory(&evidence.directory) {
        Err(e) => {
            return Err(e);
        },
        Ok(there) => {
            if !there {
                return Ok(false);
            }
        },
    }
    match regular_file_exists(&evidence.main_file) {
        Err(e) => {
            return Err(e);
        },
        Ok(there) => {
            if !there {
                return Ok(false);
            }
        },
    }
    match regular_file_exists(&evidence.runtime_file) {
        Err(e) => {
            return Err(e);
        },
        Ok(there) => {
            if !there {
                return Ok(false);
            }
        },
    }
    match &evidence.runtime {
        SessionFile::Missing => Ok(false),
        SessionFile::Failed(e) => Err(e.clone()),
        SessionFile::Corrupt(m) => Err(invalid(&join2("invalid parent Root runtime: ", m))),
        SessionFile::Parsed(p) => {
            match validate_identity(p, default_id) {
                Err(e) => {
                    return Err(e);
                },
                Ok(_) => {},
            }
            if !same_text(&p.id, root_id) || p.kind != SessionKind::Root || (
            !p.root_session_id.as_str().is_empty() && !same_text(&p.root_session_id, root_id))
                || p.parent_session_id.is_some() || p.spawn_depth != 0 {
                return Err(
                    invalid("parent Root runtime identity does not match canonical placement"),
                );
            }
            Ok(cutoff.is_before(p.created_at))
        },
    }
}

/// Whether a session is of a lifetime that is not revoked. `own` is the revocation under its own
/// id, `root` the one under its root's.
pub open spec fn lifetime_live(
    s: SessionView,
    own: Result<Option<Timestamp>, ErrorView>,
    root: Result<Option<Timestamp>, ErrorView>,
    parent: ParentEvidence,
    default_id: Seq<char>,
) -> Result<bool, ErrorView> {
    match own {
        Err(e) => Err(e),
        Ok(c) => if s.kind == SessionKind::Root {
            Ok(birth_live(c, s.created_at))
        } else if c is Some {
            Ok(false)
        } else {
            match root {
                Err(e) => Err(e),
                Ok(None) => Ok(true),
                Ok(Some(cutoff)) => parent_live(s.root_session_id, cutoff, parent, default_id),
            }
        },
    }
}

/// Whether a session is of a lifetime that is not revoked: a root by its own birth, a child by
/// that of its root; a child under the id of a deleted root is not.
pub fn session_lifetime_is_live(
    session: &Session,
    own: Result<Option<Timestamp>, StorageError>,
    root: Result<Option<Timestamp>, StorageError>,
    parent: &ParentEvidence,
    default_id: &str,
) -> (r: Result<bool, StorageError>)
    ensures
        error::plain_view(r) == lifetime_live(
            session@,
            error::plain_view(own),
            error::plain_view(root),
            *parent,
            default_id@,
        ),
{
    match own {
        Err(e) => Err(e),
        Ok(c) => {
            if session.kind == SessionKind::Root {
                return Ok(
                    match c {
                        None => true,
                        Some(t) => t.is_before(session.created_at),
                    },
                );
            }
            if c.is_some() {
                return Ok(false);
            }
            match root {
                Err(e) => Err(e),
                Ok(None) => Ok(true),
                Ok(Some(cutoff)) => parent_is_live(
                    &session.root_session_id,
                    cutoff,
                    parent,
                    default_id,
                ),
            }
        },
    }
}

/// What a write is answered by the lifetime rule: `evidence` is the revocation under the
/// session's id, the probes are of its two files, and `live` says whether its lifetime is.
pub open spec fn lifetime_check(
    incoming: SessionView,
    evidence: Result<Option<Timestamp>, ErrorView>,
    main_file: Probe,
    runtime_file: Probe,
    live: Result<bool, ErrorView>,
) -> Result<(), ErrorView> {
    let main = evidence_file(main_file);
    let runtime = evidence_file(runtime_file);
    let child = if incoming.kind == SessionKind::Child {
        match live {
            Err(e) => Err(lifetime_conflict(e.message)),
            Ok(false) => Err(lifetime_conflict("child belongs to a deleted Root"@)),
            Ok(true) => Ok(()),
        }
    } else {
        Ok(())
    };
    match evidence {
        Err(e) => Err(lifetime_conflict(e.message)),
        Ok(None) => child,
        Ok(Some(cutoff)) => if incoming.kind != SessionKind::Root || !time::before(
            cutoff,
            incoming.created_at,
        ) {
            Err(lifetime_conflict("writer belongs to a deleted Root lifetime"@))
        } else if main is Err {
            Err(lifetime_conflict(main->Err_0.message))
        } else if main == Ok::<bool, ErrorView>(true) {
            child
        } else if runtime is Err {
            Err(lifetime_conflict(runtime->Err_0.message))
        } else if runtime == Ok::<bool, ErrorView>(true) {
            child
        } else {
            Err(
                lifetime_conflict("a deleted Root ID requires trusted explicit recreation"@),
            )
        },
    }
}

/// Checks the lifetime of a session before it is written. What was deleted comes back only by
/// explicit recreation.
pub fn validate_root_lifetime_for_write(
    incoming: &Session,
    evidence: Result<Option<Timestamp>, StorageError>,
    main_file: &Probe,
    runtime_file: &Probe,
    live: Result<bool, StorageError>,
) -> (r: Result<(), StorageError>)
    ensures
        error::plain_view(r) == lifetime_check(
            incoming@,
            error::plain_view(evidence),
            *main_file,
            *runtime_file,
            error::plain_view(live),
        ),
{
    let cutoff = match evidence {
        Err(e) => {
            return Err(conflict(&e.message));
        },
        Ok(c) => c,
    };
    match cutoff {
        None => {},
        Some(c) => {
            if incoming.kind != SessionKind::Root || !c.is_before(incoming.created_at) {
                return Err(conflict("writer belongs to a deleted Root lifetime"));
            }
            let main = match regular_file_exists(main_file) {
                Err(e) => {
                    return Err(conflict(&e.message));
                },
                Ok(b) => b,
            };
            if !main {
                let runtime = match regular_file_exists(runtime_file) {
                    Err(e) => {
                        return Err(conflict(&e.message));
                    },
                    Ok(b) => b,
                };
                if !runtime {
                    return Err(conflict("a deleted Root ID requires trusted explicit recreation"));
                }
            }
        },
    }
    if incoming.kind == SessionKind::Child {
        match live {
            Err(e) => {
                return Err(conflict(&e.message));
            },
            Ok(b) => {
                if !b {
                    return Err(conflict("child belongs to a deleted Root"));
                }
            },
        }
    }
    Ok(())
}

// ---------------------------------------------------------------------- recreation

/// The birth of a recreated root: now, or the instant after the last revoked birth.
pub open spec fn new_birth(now: Timestamp, revocation: Result<Option<Timestamp>, ErrorView>) -> Result<
    Timestamp,
    ErrorView,
> {
    match revocation {
        Err(e) => Err(e),
        Ok(None) => Ok(now),
        Ok(Some(cutoff)) => if time::before(cutoff, now) {
            Ok(now)
        } else if outside::in_calendar(cutoff) && outside::next_secs(cutoff) <= outside::LAST_SECOND {
            Ok(
                Timestamp { secs: outside::next_secs(cutoff) as i64, nanos: outside::next_nanos(cutoff) as u32 },
            )
        } else {
            Err(invalid_evidence("Root lifetime birth marker exhausted"@))
        },
    }
}

/// Chooses the birth of a recreated root, past every revoked one.
pub fn fresh_root_birth(now: Timestamp, revocation: Result<Option<Timestamp>, StorageError>) -> (r:
    Result<Timestamp, StorageError>)
    ensures
        error::plain_view(r) == new_birth(now, error::plain_view(revocation)),
{
    match revocation {
        Err(e) => Err(e),
        Ok(None) => Ok(now),
        Ok(Some(cutoff)) => {
            if cutoff.is_before(now) {
                return Ok(now);
            }
            match add_nanosecond(cutoff) {
                Some(next) => Ok(next),
                None => Err(invalid("Root lifetime birth marker exhausted")),
            }
        },
    }
}

/// Whether the directory of a revoked root is to be removed before it is created again.
pub open spec fn removal_of_revoked(
    revocation: Result<Option<Timestamp>, ErrorView>,
    birth: Result<Option<Timestamp>, ErrorView>,
) -> Result<bool, ErrorView> {
    match revocation {
        Err(e) => Err(e),
        Ok(None) => Ok(false),
        Ok(Some(cutoff)) => match birth {
            Err(e) => Err(e),
            Ok(Some(b)) => if time::before(cutoff, b) {
                Err(invalid_evidence("cannot remove a live Root during recreation"@))
            } else {
                Ok(true)
            },
            Ok(None) => Ok(true),
        },
    }
}

/// Decides whether the directory of a revoked root is to be removed.
pub fn remove_revoked_root_directory(
    revocation: Result<Option<Timestamp>, StorageError>,
    birth: Result<Option<Timestamp>, StorageError>,
) -> (r: Result<bool, StorageError>)
    ensures
        error::plain_view(r) == removal_of_revoked(error::plain_view(revocation), error::plain_view(birth)),
{
    match revocation {
        Err(e) => Err(e),
        Ok(None) => Ok(false),
        Ok(Some(cutoff)) => match birth {
            Err(e) => Err(e),
            Ok(Some(b)) => {
                if cutoff.is_before(b) {
                    Err(invalid("cannot remove a live Root during recreation"))
                } else {
                    Ok(true)
                }
            },
            Ok(None) => Ok(true),
        },
    }
}

/// What a request to recreate a root is answered before anything is loaded.
pub open spec fn recreation_check(
    id: Seq<char>,
    model: Seq<char>,
    default_id: Seq<char>,
) -> Result<(), ErrorView> {
    if paths::id_check(id) is Err {
        Err(paths::id_check(id)->Err_0)
    } else if id == default_id || text::trimmed(model).len() == 0 {
        Err(
            error::plain_error(
                ErrorKind::InvalidInput,
                "ordinary Root recreation requires a non-reserved ID and a model"@,
            ),
        )
    } else {
        Ok(())
    }
}

/// Checks a request to recreate an ordinary root.
pub fn check_recreation(session_id: &str, initial_model: &str, default_id: &str) -> (r: Result<
    (),
    StorageError,
>)
    ensures
        error::plain_view(r) == recreation_check(session_id@, initial_model@, default_id@),
{
    match validate_session_id(session_id) {
        Err(e) => {
            return Err(e);
        },
        Ok(_) => {},
    }
    if same_text(session_id, default_id) || is_blank(initial_model) {
        return Err(
            StorageError::new(
                ErrorKind::InvalidInput,
                "ordinary Root recreation requires a non-reserved ID and a model".to_owned(),
            ),
        );
    }
    Ok(())
}

/// What recreating a root comes to.
#[derive(Debug, Clone, Copy, PartialEq, Eq, Structural)]
pub enum RecreationStart {
    /// The root is there again; only its index entry is repaired.
    Existing,
    /// What is left of the old root is removed, and the new one published under a fresh birth.
    Create,
}

/// What recreating a root comes to, where `existing` is its root authority.
pub open spec fn recreation_start(
    revocation: Result<Option<Timestamp>, ErrorView>,
    existing: Result<Option<SessionView>, ErrorView>,
    old_birth: Result<Option<Timestamp>, ErrorView>,
) -> Result<RecreationStart, ErrorView> {
    match revocation {
        Err(e) => Err(e),
        Ok(None) => Err(
            error::plain_error(
                ErrorKind::InvalidInput,
                "Root ID has not been deleted; use ordinary first creation"@,
            ),
        ),
        Ok(Some(_)) => match existing {
            Err(e) => Err(e),
            Ok(Some(_)) => Ok(RecreationStart::Existing),
            Ok(None) => match removal_of_revoked(revocation, old_birth) {
                Err(e) => Err(e),
                Ok(_) => Ok(RecreationStart::Create),
            },
        },
    }
}

/// Decides what recreating a deleted root comes to.
pub fn recreate_ordinary_root(
    revocation: Option<Timestamp>,
    existing: Result<Option<Session>, StorageError>,
    old_birth: Result<Option<Timestamp>, StorageError>,
) -> (r: Result<RecreationStart, StorageError>)
    ensures
        error::plain_view(r) == recreation_start(
            Ok(revocation),
            task_journal::load_view(existing),
            error::plain_view(old_birth),
        ),
{
    if revocation.is_none() {
        return Err(
            StorageError::new(
                ErrorKind::InvalidInput,
                "Root ID has not been deleted; use ordinary first creation".to_owned(),
            ),
        );
    }
    match existing {
        Err(e) => {
            return Err(e);
        },
        Ok(Some(_)) => {
            return Ok(RecreationStart::Existing);
        },
        Ok(None) => {},
    }
    match remove_revoked_root_directory(Ok(revocation), old_birth) {
        Err(e) => Err(e),
        Ok(_) => Ok(RecreationStart::Create),
    }
}

/// The session of a recreated root.
pub fn recreated_root(session_id: &str, initial_model: &str, title: &str, birth: Timestamp) -> (r:
    Session)
    ensures
        r@ == session::blank_root(session_id@, text::trimmed(initial_model@), title@, birth),
{
    Session::new_root(session_id, trim(initial_model), title, birth)
}

// ---------------------------------------------------------------------------- laws

/// Revoking a root revokes the birth that stands there, and never takes an earlier revocation
/// back: the instant only moves on.
pub proof fn a_revocation_never_goes_back(
    id: Seq<char>,
    previous: Option<Timestamp>,
    birth: Timestamp,
)
    ensures
        ({
            let w = revoke_plan(id, Ok(previous), Ok(Some(birth)))->Ok_0.write->0.revoked_through;
            &&& !birth_live(Some(w), birth)
            &&& previous is Some ==> !time::before(w, previous->0)
            &&& directory_revoked(Ok(Some(w)), Ok(Some(birth))) == Ok::<bool, ErrorView>(true)
        }),
{
}

/// What is revoked stays revoked under every later revocation.
pub proof fn a_later_revocation_covers_the_earlier(a: Timestamp, b: Timestamp, created_at: Timestamp)
    requires
        !time::before(b, a),
        !birth_live(Some(a), created_at),
    ensures
        !birth_live(Some(b), created_at),
{
}

/// A snapshot of a deleted root is refused whatever else is found: no save brings a revoked birth
/// back, and none takes the id as a child.
pub proof fn a_deleted_root_is_not_saved_back(
    incoming: SessionView,
    cutoff: Timestamp,
    main_file: Probe,
    runtime_file: Probe,
    live: Result<bool, ErrorView>,
)
    requires
        !birth_live(Some(cutoff), incoming.created_at) || incoming.kind == SessionKind::Child,
    ensures
        lifetime_check(incoming, Ok(Some(cutoff)), main_file, runtime_file, live) is Err,
        lifetime_check(
            incoming,
            Ok(Some(cutoff)),
            main_file,
            runtime_file,
            live,
        )->Err_0.authority_conflict,
{
}

/// A child of a deleted root is not written, and not even a newly born root is where nothing is
/// left at the place of a deleted one: that takes an explicit recreation.
pub proof fn ordinary_saves_never_recreate(
    incoming: SessionView,
    evidence: Result<Option<Timestamp>, ErrorView>,
    main_file: Probe,
    runtime_file: Probe,
    live: Result<bool, ErrorView>,
)
    requires
        lifetime_check(incoming, evidence, main_file, runtime_file, live) is Ok,
    ensures
        incoming.kind == SessionKind::Child ==> live == Ok::<bool, ErrorView>(true),
        evidence is Ok,
        evidence->Ok_0 is Some ==> main_file is File || runtime_file is File,
        evidence->Ok_0 is Some ==> birth_live(evidence->Ok_0, incoming.created_at),
{
}

/// The birth of a recreated root is past every revoked one, whatever the clock says; so the root
/// is alive, and every snapshot of the deleted one stays refused.
pub proof fn a_fresh_birth_is_past_every_revoked_one(
    now: Timestamp,
    cutoff: Timestamp,
    birth: Timestamp,
)
    requires
        new_birth(now, Ok(Some(cutoff))) == Ok::<Timestamp, ErrorView>(birth),
    ensures
        time::before(cutoff, birth),
        birth_live(Some(cutoff), birth),
        directory_revoked(Ok(Some(cutoff)), Ok(Some(birth))) == Ok::<bool, ErrorView>(false),
{
}

/// Recreation never removes a live root, and never replaces one that is there.
pub proof fn recreation_spares_the_living(
    cutoff: Timestamp,
    existing: Result<Option<SessionView>, ErrorView>,
    old_birth: Result<Option<Timestamp>, ErrorView>,
)
    requires
        recreation_start(Ok(Some(cutoff)), existing, old_birth) == Ok::<RecreationStart, ErrorView>(
            RecreationStart::Create,
        ),
    ensures
        existing == Ok::<Option<SessionView>, ErrorView>(None),
        old_birth is Ok,
        old_birth->Ok_0 is Some ==> !birth_live(Some(cutoff), old_birth->Ok_0->0),
{
}

/// After a reconciliation the index knows nothing of a revoked root or its children, and
/// everything else as before.
pub proof fn reconciliation_removes_revoked_trees_alone(
    index: SessionsIndexView,
    revoked: Seq<Seq<char>>,
    k: Seq<char>,
)
    ensures
        ({
            let r = without_revoked(index, revoked);
            &&& r.sessions.contains_key(k) ==> index.sessions.contains_key(k) && r.sessions[k]
                == index.sessions[k] && !revoked.contains(k) && !revoked.contains(
                r.sessions[k].root_session_id,
            )
            &&& index.sessions.contains_key(k) && !entry_revoked(k, index.sessions[k], revoked)
                ==> r.sessions.contains_key(k)
        }),
{
}

/// The instant up to which a root's births are revoked is the one that its evidence states, where
/// that is of the written version and under the root's own id; there is none where there is no
/// evidence, and evidence that is anything else is a failure.
pub proof fn a_revocation_is_read_as_written(
    id: Seq<char>,
    ev: RevocationEvidence,
    written: RootRevocation,
)
    requires
        paths::id_check(id) is Ok,
    ensures
        ev.directory is Missing ==> revocation_of(id, ev) == Ok::<Option<Timestamp>, ErrorView>(None),
        ev.directory is Directory && ev.file is Missing ==> revocation_of(id, ev) == Ok::<
            Option<Timestamp>,
            ErrorView,
        >(None),
        ev.directory is Directory && ev.file is File && ev.content == RevocationFile::Parsed(written)
            && written.version == 1 && written.session_id@ == id ==> revocation_of(id, ev) == Ok::<
            Option<Timestamp>,
            ErrorView,
        >(Some(written.revoked_through)),
        ev.directory is File || ev.directory is Other || ev.directory is Failed ==> revocation_of(
            id,
            ev,
        ) is Err,
        ev.directory is Directory && !(ev.file is Missing) && (!(ev.file is File)
            || !(ev.content is Parsed) || ev.content->Parsed_0.version != 1
            || ev.content->Parsed_0.session_id@ != id) ==> revocation_of(id, ev) is Err,
{
}

/// The birth of a root is the latest that its two files state, where each states one of a root at
/// this place; there is none where neither file stands, and a file that states anything else is a
/// failure.
pub proof fn a_birth_is_the_latest_stated(
    id: Seq<char>,
    ev: BirthEvidence,
    main: RootBirth,
    side: RootBirth,
)
    requires
        paths::id_check(id) is Ok,
        main.id@ == id && main.kind == SessionKind::Root && main.root_session_id@ == id
            && main.parent_session_id is None && main.spawn_depth == 0,
        side.id@ == id && side.kind == SessionKind::Root && side.root_session_id@ == id
            && side.parent_session_id is None && side.spawn_depth == 0,
    ensures
        ev.directory is Missing ==> birth_of(id, ev) == Ok::<Option<Timestamp>, ErrorView>(None),
        ev.directory is Directory && ev.main_file is Missing && ev.runtime_file is Missing ==> birth_of(
            id,
            ev,
        ) == Ok::<Option<Timestamp>, ErrorView>(None),
        ev.directory is Directory && ev.main_file is File && ev.main == BirthFile::Parsed(main)
            && ev.runtime_file is Missing ==> birth_of(id, ev) == Ok::<Option<Timestamp>, ErrorView>(
            Some(main.created_at),
        ),
        ev.directory is Directory && ev.main_file is Missing && ev.runtime_file is File && ev.runtime
            == BirthFile::Parsed(side) ==> birth_of(id, ev) == Ok::<Option<Timestamp>, ErrorView>(
            Some(side.created_at),
        ),
        ev.directory is Directory && ev.main_file is File && ev.main == BirthFile::Parsed(main)
            && ev.runtime_file is File && ev.runtime == BirthFile::Parsed(side) ==> {
            let r = birth_of(id, ev);
            &&& r is Ok && r->Ok_0 is Some
            &&& r->Ok_0->0 == main.created_at || r->Ok_0->0 == side.created_at
            &&& !time::before(r->Ok_0->0, main.created_at)
            &&& !time::before(r->Ok_0->0, side.created_at)
        },
        ev.directory is File || ev.directory is Other || ev.directory is Failed ==> birth_of(id, ev)
            is Err,
{
}

/// A file that states a birth at another place is no evidence of this root: reading it fails.
pub proof fn a_birth_elsewhere_is_refused(id: Seq<char>, ev: BirthEvidence)
    requires
        ev.directory is Directory,
        (ev.main_file is File && !(ev.main is Parsed)) || (ev.runtime_file is File
            && !(ev.runtime is Parsed)) || (ev.main_file is File && ev.main is Parsed && (
        ev.main->Parsed_0.id@ != id || ev.main->Parsed_0.kind != SessionKind::Root
            || ev.main->Parsed_0.parent_session_id is Some || ev.main->Parsed_0.spawn_depth != 0 || (
        ev.main->Parsed_0.root_session_id@.len() > 0 && ev.main->Parsed_0.root_session_id@ != id)))
            || (ev.runtime_file is File && ev.runtime is Parsed && (ev.runtime->Parsed_0.id@ != id
            || ev.runtime->Parsed_0.kind != SessionKind::Root
            || ev.runtime->Parsed_0.parent_session_id is Some || ev.runtime->Parsed_0.spawn_depth
            != 0 || (ev.runtime->Parsed_0.root_session_id@.len() > 0
            && ev.runtime->Parsed_0.root_session_id@ != id))),
    ensures
        birth_of(id, ev) is Err,
{
}

/// Revoking writes a revocation of the current version under the root's id exactly where a birth is
/// stated; a root without one counts as revoked where it was before. Evidence that cannot be read
/// revokes nothing.
pub proof fn what_a_revocation_writes(
    id: Seq<char>,
    previous: Option<Timestamp>,
    birth: Option<Timestamp>,
    e: ErrorView,
)
    ensures
        ({
            let r = revoke_plan(id, Ok(previous), Ok(birth));
            &&& r is Ok
            &&& birth is None ==> r->Ok_0.write is None && (r->Ok_0.revoked <==> previous is Some)
            &&& birth is Some ==> r->Ok_0.revoked && r->Ok_0.write is Some
            &&& birth is Some ==> {
                let w = r->Ok_0.write->0;
                &&& w.version == 1 && w.session_id == id
                &&& w.revoked_through == birth->0 || Some(w.revoked_through) == previous
                &&& previous is None ==> w.revoked_through == birth->0
            }
        }),
        revoke_plan(id, Err(e), Ok(birth)) == Err::<RevokePlanView, ErrorView>(e),
        revoke_plan(id, Ok(previous), Err(e)) == Err::<RevokePlanView, ErrorView>(e),
{
}

/// A directory is one of a revoked birth exactly where a revocation stands and no birth past it is
/// stated; a birth is alive exactly where none stands or it is past it.
pub proof fn what_a_revocation_covers(
    cutoff: Option<Timestamp>,
    birth: Option<Timestamp>,
    created_at: Timestamp,
)
    ensures
        directory_revoked(Ok(cutoff), Ok(birth)) is Ok,
        directory_revoked(Ok(cutoff), Ok(birth))->Ok_0 <==> cutoff is Some && (birth is None
            || birth->0 == cutoff->0 || time::before(birth->0, cutoff->0)),
        birth_live(cutoff, created_at) <==> cutoff is None || time::before(cutoff->0, created_at),
{
}

/// The roots that the revocations make unavailable are exactly those that an evidence file names
/// and that could not be shown to be alive.
pub proof fn every_revoked_root_is_listed(entries: Seq<RevocationEntry>, id: Seq<char>)
    ensures
        revoked_ids(entries).contains(id) <==> exists|i: int|
            0 <= i < entries.len() && paths::extension_of(#[trigger] entries[i].name@) == Some(
                "json"@,
            ) && paths::stem_of(entries[i].name@) == Some(id) && entries[i].revoked != Ok::<
                bool,
                StorageError,
            >(false),
    decreases entries.len(),
{
    if entries.len() > 0 {
        let head = entries.drop_last();
        let n = entries.len() - 1;
        every_revoked_root_is_listed(head, id);
        assert forall|i: int| 0 <= i < head.len() implies head[i] == entries[i] by {}
        let own = paths::extension_of(entries[n].name@) == Some("json"@) && paths::stem_of(
            entries[n].name@,
        ) == Some(id) && entries[n].revoked != Ok::<bool, StorageError>(false);
        assert(own <==> revoked_id(entries.last()) == Some(id));
        if revoked_ids(entries).contains(id) {
            let k = choose|k: int|
                0 <= k < revoked_ids(entries).len() && revoked_ids(entries)[k] == id;
            if k < revoked_ids(head).len() {
                assert(revoked_ids(head)[k] == id);
                let i = choose|i: int|
                    0 <= i < head.len() && paths::extension_of(#[trigger] head[i].name@) == Some(
                        "json"@,
                    ) && paths::stem_of(head[i].name@) == Some(id) && head[i].revoked != Ok::<
                        bool,
                        StorageError,
                    >(false);
                assert(entries[i].name@ == head[i].name@);
            } else {
                assert(own);
            }
        }
        if exists|i: int|
            0 <= i < entries.len() && paths::extension_of(#[trigger] entries[i].name@) == Some(
                "json"@,
            ) && paths::stem_of(entries[i].name@) == Some(id) && entries[i].revoked != Ok::<
                bool,
                StorageError,
            >(false) {
            let i = choose|i: int|
                0 <= i < entries.len() && paths::extension_of(#[trigger] entries[i].name@) == Some(
                    "json"@,
                ) && paths::stem_of(entries[i].name@) == Some(id) && entries[i].revoked != Ok::<
                    bool,
                    StorageError,
                >(false);
            if i < n {
                assert(head[i].name@ == entries[i].name@);
                assert(revoked_ids(head).contains(id));
                let k = choose|k: int| 0 <= k < revoked_ids(head).len() && revoked_ids(head)[k] == id;
                assert(revoked_ids(entries)[k] == id);
            } else {
                assert(revoked_ids(entries).last() == id);
            }
        }
    }
}

/// A reconciliation leaves the rest of the index as it was.
pub proof fn a_reconciliation_is_narrow(index: SessionsIndexView, revoked: Seq<Seq<char>>)
    ensures
        (SessionsIndexView { sessions: index.sessions, ..without_revoked(index, revoked) }) == index,
        forall|k: Seq<char>| #[trigger]
            without_revoked(index, revoked).sessions.contains_key(k) <==> index.sessions.contains_key(k)
                && !revoked.contains(k) && !revoked.contains(index.sessions[k].root_session_id),
{
}

/// A root lives by its own birth; a child lives where its own id was never a deleted root's and its
/// root, if that was ever deleted, stands at its place under a birth past the revoked ones.
pub proof fn who_is_alive(
    s: SessionView,
    own: Option<Timestamp>,
    root: Option<Timestamp>,
    parent: ParentEvidence,
    current: Session,
    default_id: Seq<char>,
)
    ensures
        s.kind == SessionKind::Root ==> (lifetime_live(s, Ok(own), Ok(root), parent, default_id)
            == Ok::<bool, ErrorView>(own is None || time::before(own->0, s.created_at))),
        s.kind == SessionKind::Child && own is Some ==> lifetime_live(
            s,
            Ok(own),
            Ok(root),
            parent,
            default_id,
        ) == Ok::<bool, ErrorView>(false),
        s.kind == SessionKind::Child && own is None && root is None ==> lifetime_live(
            s,
            Ok(own),
            Ok(root),
            parent,
            default_id,
        ) == Ok::<bool, ErrorView>(true),
        s.kind == SessionKind::Child && own is None && root is Some && parent.sessions_directory
            is Directory && parent.directory is Directory && parent.main_file is File
            && parent.runtime_file is File && parent.runtime == SessionFile::Parsed(current)
            && supervisor::identity_check(current@, default_id) is Ok && current@.id
            == s.root_session_id && current@.kind == SessionKind::Root && (
        current@.root_session_id.len() == 0 || current@.root_session_id == s.root_session_id)
            && current@.parent_session_id is None && current@.spawn_depth == 0 ==> lifetime_live(
            s,
            Ok(own),
            Ok(root),
            parent,
            default_id,
        ) == Ok::<bool, ErrorView>(time::before(root->0, current@.created_at)),
        s.kind == SessionKind::Child && own is None && root is Some && (parent.sessions_directory
            is Missing || (parent.sessions_directory is Directory && parent.directory is Missing) || (
        parent.sessions_directory is Directory && parent.directory is Directory && parent.main_file
            is Missing)) ==> lifetime_live(s, Ok(own), Ok(root), parent, default_id) == Ok::<
            bool,
            ErrorView,
        >(false),
        s.kind == SessionKind::Child && own is None && root is Some && parent.runtime
            == SessionFile::Parsed(current) && (current@.id != s.root_session_id || current@.kind
            != SessionKind::Root) ==> lifetime_live(s, Ok(own), Ok(root), parent, default_id)
            != Ok::<bool, ErrorView>(true),
{
}

/// A root is let through by the lifetime rule exactly where nothing was ever deleted under its id, or
/// it was born past that and a file of it stands already; a child exactly where its own id was never
/// a deleted root's and its root is alive.
pub proof fn whom_the_lifetime_lets_through(
    incoming: SessionView,
    cutoff: Option<Timestamp>,
    main_file: Probe,
    runtime_file: Probe,
    live: Result<bool, ErrorView>,
)
    ensures
        incoming.kind == SessionKind::Root && cutoff is None ==> lifetime_check(
            incoming,
            Ok(cutoff),
            main_file,
            runtime_file,
            live,
        ) is Ok,
        incoming.kind == SessionKind::Root && cutoff is Some ==> (lifetime_check(
            incoming,
            Ok(cutoff),
            main_file,
            runtime_file,
            live,
        ) is Ok <==> time::before(cutoff->0, incoming.created_at) && (main_file is File || (main_file
            is Missing && runtime_file is File))),
        incoming.kind == SessionKind::Child ==> (lifetime_check(
            incoming,
            Ok(cutoff),
            main_file,
            runtime_file,
            live,
        ) is Ok <==> cutoff is None && live == Ok::<bool, ErrorView>(true)),
{
}

/// A new birth is the present wherever that is past every revoked one; else it is the very next
/// instant after the last of them, which there is but at the end of the calendar.
pub proof fn a_new_birth_is_the_first_past_the_revoked(now: Timestamp, cutoff: Timestamp)
    ensures
        new_birth(now, Ok(None)) == Ok::<Timestamp, ErrorView>(now),
        time::before(cutoff, now) ==> new_birth(now, Ok(Some(cutoff))) == Ok::<Timestamp, ErrorView>(
            now,
        ),
        !time::before(cutoff, now) && outside::in_calendar(cutoff) && cutoff.nanos < 999999999
            ==> new_birth(now, Ok(Some(cutoff))) == Ok::<Timestamp, ErrorView>(
            Timestamp { secs: cutoff.secs, nanos: (cutoff.nanos + 1) as u32 },
        ),
        !time::before(cutoff, now) && outside::in_calendar(cutoff) && cutoff.nanos == 999999999
            && cutoff.secs < outside::LAST_SECOND ==> new_birth(now, Ok(Some(cutoff))) == Ok::<
            Timestamp,
            ErrorView,
        >(Timestamp { secs: (cutoff.secs + 1) as i64, nanos: 0 }),
        !time::before(cutoff, now) && !outside::in_calendar(cutoff) ==> new_birth(
            now,
            Ok(Some(cutoff)),
        ) is Err,
{
}

/// What is left of a root is removed before it is created again exactly where it was deleted and no
/// live birth stands there; without a deletion there is nothing to remove.
pub proof fn what_a_recreation_removes(cutoff: Option<Timestamp>, birth: Option<Timestamp>)
    ensures
        cutoff is None ==> removal_of_revoked(Ok(cutoff), Ok(birth)) == Ok::<bool, ErrorView>(false),
        cutoff is Some && (birth is None || !time::before(cutoff->0, birth->0))
            ==> removal_of_revoked(Ok(cutoff), Ok(birth)) == Ok::<bool, ErrorView>(true),
        cutoff is Some && birth is Some && time::before(cutoff->0, birth->0) ==> removal_of_revoked(
            Ok(cutoff),
            Ok(birth),
        ) is Err,
{
}

/// An ordinary root is created again only where it was deleted: one that stands again is kept, one
/// that does not is created. The Supervisor's id and a blank model are refused.
pub proof fn when_a_root_is_recreated(
    cutoff: Timestamp,
    existing: Option<SessionView>,
    birth: Option<Timestamp>,
    id: Seq<char>,
    model: Seq<char>,
    default_id: Seq<char>,
)
    ensures
        recreation_start(Ok(None), Ok(existing), Ok(birth)) is Err,
        existing is Some ==> recreation_start(Ok(Some(cutoff)), Ok(existing), Ok(birth)) == Ok::<
            RecreationStart,
            ErrorView,
        >(RecreationStart::Existing),
        existing is None ==> (recreation_start(Ok(Some(cutoff)), Ok(existing), Ok(birth)) == Ok::<
            RecreationStart,
            ErrorView,
        >(RecreationStart::Create) <==> birth is None || !time::before(cutoff, birth->0)),
        recreation_check(id, model, default_id) is Ok <==> paths::id_check(id) is Ok && id
            != default_id && text::trimmed(model).len() > 0,
{
}

/// What is said of these values is said of their own fields: none is left out or exchanged.
pub proof fn nothing_is_left_unseen(a: RootRevocation, b: RevokePlan)
    ensures
        a@.version == a.version && a@.session_id == a.session_id@,
        a@.revoked_through == a.revoked_through,
        b@.write is Some <==> b.write is Some,
        b.write is Some ==> b@.write->0 == b.write->0@,
        b@.revoked == b.revoked,
{
}

/// A birth is judged by the revocation alone; one that cannot be read is a failure.
pub proof fn how_a_birth_is_judged(cutoff: Timestamp, created_at: Timestamp, e: ErrorView)
    ensures
        birth_judged(Ok(None), created_at) == Ok::<bool, ErrorView>(true),
        birth_judged(Ok(Some(cutoff)), created_at) == Ok::<bool, ErrorView>(
            time::before(cutoff, created_at),
        ),
        birth_judged(Err(e), created_at) == Err::<bool, ErrorView>(e),
{
}

/// Evidence that is none is invalid data; every refusal by the lifetime rule is a conflict with
/// durable authority that may pass, with its reason in its message; a recreation that is asked for
/// wrongly is invalid input.
pub proof fn how_a_lifetime_is_refused(
    message: Seq<char>,
    id: Seq<char>,
    model: Seq<char>,
    default_id: Seq<char>,
    existing: Option<SessionView>,
    birth: Option<Timestamp>,
)
    ensures
        invalid_evidence(message).kind == ErrorKind::InvalidData && invalid_evidence(message).message
            == message && !invalid_evidence(message).authority_conflict,
        lifetime_conflict(message).kind == ErrorKind::WouldBlock,
        lifetime_conflict(message).authority_conflict,
        lifetime_conflict(message).message == "Root lifetime is revoked or unavailable: "@ + message,
        paths::id_check(id) is Ok && recreation_check(id, model, default_id) is Err
            ==> recreation_check(id, model, default_id)->Err_0.kind == ErrorKind::InvalidInput,
        recreation_start(Ok(None), Ok(existing), Ok(birth))->Err_0.kind == ErrorKind::InvalidInput,
{
}

} // verus!
