//! The queue of deferred search-index changes: one pending change for each session, the newest.

use crate::outside;
use crate::paths::{fresh_id, SEARCH_INDEX_REVISION_FILE};
use crate::session::{Session, SessionView};
use crate::session;
use crate::strmap::StrMap;
use crate::text::join3;
use crate::text;
use std::collections::VecDeque;
use vstd::prelude::*;

verus! {

/// How often a change of the search index is tried.
pub const SEARCH_INDEX_MAX_ATTEMPTS: usize = 3;

/// A change of the search index.
pub enum SearchIndexMutation {
    /// Index the session, while its revision is still the expected one.
    Upsert { session: Box<Session>, revision_path: String, expected_revision: String },
    /// Forget the session, while its source is missing.
    Delete { session_id: String, revision_path: String },
}

/// What a [`SearchIndexMutation`] holds.
pub enum MutationView {
    Upsert { session: SessionView, revision_path: Seq<char>, expected_revision: Seq<char> },
    Delete { session_id: Seq<char>, revision_path: Seq<char> },
}

impl View for SearchIndexMutation {
    type V = MutationView;

    open spec fn view(&self) -> MutationView {
        match *self {
            SearchIndexMutation::Upsert { session, revision_path, expected_revision } => {
                MutationView::Upsert {
                    session: (*session)@,
                    revision_path: revision_path@,
                    expected_revision: expected_revision@,
                }
            },
            SearchIndexMutation::Delete { session_id, revision_path } => MutationView::Delete {
                session_id: session_id@,
                revision_path: revision_path@,
            },
        }
    }
}

impl MutationView {
    /// The session that the change is about.
    pub open spec fn id(self) -> Seq<char> {
        match self {
            MutationView::Upsert { session, .. } => session.id,
            MutationView::Delete { session_id, .. } => session_id,
        }
    }
}

impl SearchIndexMutation {
    /// The session that the change is about.
    pub fn session_id(&self) -> (r: String)
        ensures
            r@ == self@.id(),
    {
        match self {
            SearchIndexMutation::Upsert { session, .. } => session.id.clone(),
            SearchIndexMutation::Delete { session_id, .. } => session_id.clone(),
        }
    }
}

/// A change that waits, with its number.
pub struct PendingSearchIndexMutation {
    pub generation: u64,
    pub mutation: SearchIndexMutation,
}

/// What a [`PendingSearchIndexMutation`] holds.
pub struct PendingView {
    pub generation: u64,
    pub mutation: MutationView,
}

impl View for PendingSearchIndexMutation {
    type V = PendingView;

    open spec fn view(&self) -> PendingView {
        PendingView { generation: self.generation, mutation: self.mutation@ }
    }
}

/// The changes that wait for the search index.
pub struct SearchIndexQueue {
    pub pending: StrMap<PendingSearchIndexMutation>,
    pub order: VecDeque<String>,
    pub next_generation: u64,
    pub in_flight: usize,
}

/// What a [`SearchIndexQueue`] holds.
#[verifier::ext_equal]
pub struct QueueView {
    /// The change that waits for each session.
    pub pending: Map<Seq<char>, PendingView>,
    /// The sessions in the order in which they are served.
    pub order: Seq<Seq<char>>,
    pub next_generation: u64,
    pub in_flight: usize,
}

impl View for SearchIndexQueue {
    type V = QueueView;

    open spec fn view(&self) -> QueueView {
        QueueView {
            pending: self.pending@.map_values(|p: PendingSearchIndexMutation| p@),
            order: text::texts(self.order@),
            next_generation: self.next_generation,
            in_flight: self.in_flight,
        }
    }
}

/// A queue in which nothing waits.
pub open spec fn empty_queue() -> QueueView {
    QueueView { pending: Map::empty(), order: Seq::empty(), next_generation: 1, in_flight: 0 }
}

impl QueueView {
    /// Whether exactly the sessions with a pending change are in the order, each once.
    pub open spec fn well_formed(self) -> bool {
        &&& self.order.no_duplicates()
        &&& forall|id: Seq<char>| #[trigger]
            self.pending.contains_key(id) <==> self.order.contains(id)
        &&& forall|id: Seq<char>| #[trigger]
            self.pending.contains_key(id) ==> self.pending[id].mutation.id() == id
    }

    /// The queue with one more change: it replaces an older one of its session, in that one's
    /// place.
    pub open spec fn enqueued(self, m: MutationView) -> QueueView {
        QueueView {
            pending: self.pending.insert(
                m.id(),
                PendingView { generation: self.next_generation, mutation: m },
            ),
            order: if self.pending.contains_key(m.id()) {
                self.order
            } else {
                self.order.push(m.id())
            },
            next_generation: if self.next_generation < u64::MAX {
                (self.next_generation + 1) as u64
            } else {
                0
            },
            ..self
        }
    }

    /// The change that is served next, if any.
    pub open spec fn front(self) -> Option<PendingView> {
        if self.order.len() > 0 && self.pending.contains_key(self.order[0]) {
            Some(self.pending[self.order[0]])
        } else {
            None
        }
    }

    /// The queue after its next change was taken.
    pub open spec fn taken(self) -> QueueView {
        if self.order.len() == 0 {
            self
        } else {
            QueueView {
                pending: self.pending.remove(self.order[0]),
                order: self.order.subrange(1, self.order.len() as int),
                in_flight: if self.front() is None {
                    self.in_flight
                } else if self.in_flight < usize::MAX {
                    (self.in_flight + 1) as usize
                } else {
                    0
                },
                ..self
            }
        }
    }

    /// The queue after a change that was under way has ended.
    pub open spec fn finished(self) -> QueueView {
        QueueView {
            in_flight: if self.in_flight > 0 {
                (self.in_flight - 1) as usize
            } else {
                usize::MAX
            },
            ..self
        }
    }

    /// Whether nothing waits and nothing is under way.
    pub open spec fn idle(self) -> bool {
        self.pending.dom().len() == 0 && self.in_flight == 0
    }
}

impl SearchIndexQueue {
    /// A queue in which nothing waits.
    pub fn new() -> (r: SearchIndexQueue)
        ensures
            r@ == empty_queue(),
            r@.well_formed(),
    {
        let r = SearchIndexQueue {
            pending: StrMap::new(),
            order: VecDeque::new(),
            next_generation: 1,
            in_flight: 0,
        };
        assert(r@.pending =~= Map::<Seq<char>, PendingView>::empty());
        assert(r@.order =~= Seq::<Seq<char>>::empty());
        assert(r@ =~= empty_queue());
        r
    }

    /// Adds a change and gives its number; an older change of the same session is dropped.
    pub fn enqueue(&mut self, mutation: SearchIndexMutation) -> (r: u64)
        ensures
            r == old(self)@.next_generation,
            final(self)@ == old(self)@.enqueued(mutation@),
    {
        let ghost original = self@;
        let generation: u64 = self.next_generation;
        self.next_generation = if generation < u64::MAX {
            generation + 1
        } else {
            0
        };
        let id = mutation.session_id();
        if !self.pending.contains_key(&id) {
            let ghost earlier = self.order@;
            self.order.push_back(id.clone());
            assert(text::texts(self.order@) =~= text::texts(earlier).push(id@));
        }
        self.pending.insert(id, PendingSearchIndexMutation { generation, mutation });
        assert(self@.pending =~= original.enqueued(mutation@).pending);
        assert(self@ =~= original.enqueued(mutation@));
        generation
    }

    /// Adds the indexing of a session at a revision.
    pub fn enqueue_upsert(
        &mut self,
        session: &Session,
        revision_path: String,
        expected_revision: String,
    ) -> (r: u64)
        ensures
            r == old(self)@.next_generation,
            final(self)@ == old(self)@.enqueued(
                MutationView::Upsert {
                    session: session@,
                    revision_path: revision_path@,
                    expected_revision: expected_revision@,
                },
            ),
    {
        self.enqueue(
            SearchIndexMutation::Upsert {
                session: Box::new(session.duplicate()),
                revision_path,
                expected_revision,
            },
        )
    }

    /// Adds the removal of a session.
    pub fn enqueue_delete(&mut self, session_id: &str, revision_path: String) -> (r: u64)
        ensures
            r == old(self)@.next_generation,
            final(self)@ == old(self)@.enqueued(
                MutationView::Delete { session_id: session_id@, revision_path: revision_path@ },
            ),
    {
        self.enqueue(
            SearchIndexMutation::Delete { session_id: session_id.to_owned(), revision_path },
        )
    }

    /// Takes the next change; it is under way until it is finished.
    pub fn take_next(&mut self) -> (r: Option<PendingSearchIndexMutation>)
        ensures
            session::opt_view(r) == old(self)@.front(),
            final(self)@ == old(self)@.taken(),
    {
        let ghost original = self@;
        let ghost before_pop = self.order@;
        let id = match self.order.pop_front() {
            None => {
                assert(self@ =~= original);
                return None;
            },
            Some(id) => id,
        };
        assert(text::texts(self.order@) =~= original.order.subrange(1, original.order.len() as int));
        assert(original.order[0] == id@);
        let next = self.pending.remove(&id);
        if next.is_some() {
            self.in_flight = if self.in_flight < usize::MAX {
                self.in_flight + 1
            } else {
                0
            };
        }
        assert(self@.pending =~= original.pending.remove(id@));
        assert(self@ =~= original.taken());
        next
    }

    /// Ends a change that was under way.
    pub fn finish(&mut self)
        ensures
            final(self)@ == old(self)@.finished(),
    {
        self.in_flight = if self.in_flight > 0 {
            self.in_flight - 1
        } else {
            usize::MAX
        };
    }

    /// How many sessions have a change that waits.
    pub fn pending_len(&self) -> (r: usize)
        ensures
            r == self@.pending.dom().len(),
            self@.pending.dom().finite(),
    {
        let n: usize = self.pending.len();
        assert(self@.pending.dom() =~= self.pending@.dom());
        n
    }

    /// Whether nothing waits and nothing is under way.
    pub fn is_idle(&self) -> (r: bool)
        ensures
            r == self@.idle(),
    {
        self.pending_len() == 0 && self.in_flight == 0
    }
}

/// A fresh revision of a session in a directory: the file that holds it, and the revision.
pub fn publish_search_revision(directory: &str) -> (r: (String, String))
    ensures
        r.0@ == directory@ + "/"@ + SEARCH_INDEX_REVISION_FILE@,
        r.1@.len() == 36,
        outside::uuid_text(r.1@),
{
    (join3(directory, "/", SEARCH_INDEX_REVISION_FILE), fresh_id())
}

// --------------------------------------------------------------------------- attempts

/// What follows an attempt at a change.
#[derive(Debug, Clone, Copy, PartialEq, Eq, Structural)]
pub enum AttemptNext {
    Done,
    /// Try again after some milliseconds.
    RetryAfter(u64),
    /// Leave it to the next rebuild.
    GiveUp,
}

/// What follows an attempt, counted from one.
pub open spec fn next_attempt(attempt: usize, succeeded: bool) -> AttemptNext {
    if succeeded {
        AttemptNext::Done
    } else if attempt < SEARCH_INDEX_MAX_ATTEMPTS {
        AttemptNext::RetryAfter((25 * attempt) as u64)
    } else {
        AttemptNext::GiveUp
    }
}

/// What follows an attempt, counted from one.
pub fn after_attempt(attempt: usize, succeeded: bool) -> (r: AttemptNext)
    ensures
        r == next_attempt(attempt, succeeded),
{
    if succeeded {
        AttemptNext::Done
    } else if attempt < SEARCH_INDEX_MAX_ATTEMPTS {
        AttemptNext::RetryAfter(25 * (attempt as u64))
    } else {
        AttemptNext::GiveUp
    }
}

// ------------------------------------------------------------------------------- laws

/// Adding a change keeps the queue in order: at most one change waits for each session, the
/// newest, and a session that waits already keeps its place.
pub proof fn changes_of_a_session_coalesce(q: QueueView, m: MutationView)
    requires
        q.well_formed(),
    ensures
        q.enqueued(m).well_formed(),
        q.enqueued(m).pending[m.id()].mutation == m,
        forall|id: Seq<char>|
            id != m.id() && q.pending.contains_key(id) ==> #[trigger] q.enqueued(m).pending[id]
                == q.pending[id],
        q.order.is_prefix_of(q.enqueued(m).order),
        q.pending.contains_key(m.id()) ==> q.enqueued(m).order == q.order,
{
    let r = q.enqueued(m);
    if !q.pending.contains_key(m.id()) {
        assert(!q.order.contains(m.id()));
        assert forall|i: int, j: int| 0 <= i < r.order.len() && 0 <= j < r.order.len() && i
            != j implies r.order[i] != r.order[j] by {
            if i == q.order.len() {
                assert(q.order.contains(q.order[j]));
            } else if j == q.order.len() {
                assert(q.order.contains(q.order[i]));
            }
        }
        assert forall|id: Seq<char>| #[trigger] r.pending.contains_key(id) <==> r.order.contains(
            id,
        ) by {
            if id == m.id() {
                assert(r.order[q.order.len() as int] == id);
            } else {
                assert(q.pending.contains_key(id) <==> q.order.contains(id));
                if q.order.contains(id) {
                    let i = choose|i: int| 0 <= i < q.order.len() && q.order[i] == id;
                    assert(r.order[i] == id);
                }
                if r.order.contains(id) {
                    let i = choose|i: int| 0 <= i < r.order.len() && r.order[i] == id;
                    assert(q.order[i] == id);
                }
            }
        }
    } else {
        assert forall|id: Seq<char>| #[trigger] r.pending.contains_key(id) <==> r.order.contains(
            id,
        ) by {
            assert(q.pending.contains_key(id) <==> q.order.contains(id));
        }
    }
}

/// Taking a change keeps the queue in order, serves the session that has waited longest, and
/// finds nothing only where nothing waits.
pub proof fn the_longest_waiting_session_is_served(q: QueueView)
    requires
        q.well_formed(),
    ensures
        q.taken().well_formed(),
        q.front() is None <==> q.order.len() == 0,
        q.front() is None ==> q.pending =~= Map::<Seq<char>, PendingView>::empty(),
        q.front() is Some ==> q.front()->0.mutation.id() == q.order[0]
            && !q.taken().pending.contains_key(q.order[0]) && q.taken().order.len()
            == q.order.len() - 1,
{
    let r = q.taken();
    if q.order.len() > 0 {
        assert(q.order.contains(q.order[0]));
        assert forall|id: Seq<char>| #[trigger] r.pending.contains_key(id) <==> r.order.contains(
            id,
        ) by {
            assert(q.pending.contains_key(id) <==> q.order.contains(id));
            if r.order.contains(id) {
                let i = choose|i: int| 0 <= i < r.order.len() && r.order[i] == id;
                assert(q.order[i + 1] == id);
                assert(q.order[0] != id);
            }
            if q.order.contains(id) && id != q.order[0] {
                let i = choose|i: int| 0 <= i < q.order.len() && q.order[i] == id;
                assert(r.order[i - 1] == id);
            }
        }
        assert(r.order.no_duplicates()) by {
            assert forall|i: int, j: int| 0 <= i < r.order.len() && 0 <= j < r.order.len() && i
                != j implies r.order[i] != r.order[j] by {
                assert(q.order[i + 1] != q.order[j + 1]);
            }
        }
    } else {
        assert forall|id: Seq<char>| !q.pending.contains_key(id) by {
            assert(q.pending.contains_key(id) <==> q.order.contains(id));
        }
    }
}

/// The queue with some more changes, one after the other.
pub open spec fn enqueued_all(q: QueueView, changes: Seq<MutationView>) -> QueueView
    decreases changes.len(),
{
    if changes.len() == 0 {
        q
    } else {
        enqueued_all(q, changes.drop_last()).enqueued(changes.last())
    }
}

/// Whether some changes are about a session.
pub open spec fn mentions(changes: Seq<MutationView>, id: Seq<char>) -> bool {
    exists|i: int| 0 <= i < changes.len() && (#[trigger] changes[i]).id() == id
}

/// An order with the sessions of some changes added, each where it is first mentioned.
pub open spec fn order_with(order: Seq<Seq<char>>, changes: Seq<MutationView>) -> Seq<Seq<char>>
    decreases changes.len(),
{
    if changes.len() == 0 {
        order
    } else {
        let head = order_with(order, changes.drop_last());
        if head.contains(changes.last().id()) {
            head
        } else {
            head.push(changes.last().id())
        }
    }
}

proof fn lemma_mentions_last(changes: Seq<MutationView>, id: Seq<char>)
    requires
        changes.len() > 0,
    ensures
        mentions(changes, id) <==> mentions(changes.drop_last(), id) || changes.last().id() == id,
{
    let head = changes.drop_last();
    if mentions(head, id) {
        let i = choose|i: int| 0 <= i < head.len() && (#[trigger] head[i]).id() == id;
        assert(changes[i] == head[i]);
    }
    if mentions(changes, id) {
        let i = choose|i: int| 0 <= i < changes.len() && (#[trigger] changes[i]).id() == id;
        if i < head.len() {
            assert(head[i] == changes[i]);
        }
    }
    if changes.last().id() == id {
        assert(changes[changes.len() - 1].id() == id);
    }
}

/// After any number of changes exactly the sessions that waited before and those that were
/// mentioned wait, in the order in which they were first mentioned; each of the latter with the
/// last change that is about it, each of the others as it was.
#[verifier::spinoff_prover]
#[verifier::rlimit(60)]
pub proof fn the_last_change_of_each_session_waits(q: QueueView, changes: Seq<MutationView>)
    requires
        q.well_formed(),
    ensures
        ({
            let r = enqueued_all(q, changes);
            &&& r.well_formed()
            &&& r.order == order_with(q.order, changes)
            &&& r.in_flight == q.in_flight
            &&& forall|id: Seq<char>| #[trigger]
                r.pending.contains_key(id) <==> q.pending.contains_key(id) || mentions(changes, id)
            &&& forall|id: Seq<char>|
                q.pending.contains_key(id) && !mentions(changes, id) ==> #[trigger] r.pending[id]
                    == q.pending[id]
            &&& forall|i: int|
                0 <= i < changes.len() && !mentions(
                    changes.skip(i + 1),
                    (#[trigger] changes[i]).id(),
                ) ==> r.pending[changes[i].id()].mutation == changes[i]
        }),
    decreases changes.len(),
{
    if changes.len() > 0 {
        let head = changes.drop_last();
        let last = changes.last();
        let n = head.len() as int;
        the_last_change_of_each_session_waits(q, head);
        let h = enqueued_all(q, head);
        let r = enqueued_all(q, changes);
        changes_of_a_session_coalesce(h, last);
        assert(h.pending.contains_key(last.id()) <==> h.order.contains(last.id()));
        assert forall|id: Seq<char>| #[trigger] r.pending.contains_key(id) <==> q.pending.contains_key(
            id,
        ) || mentions(changes, id) by {
            lemma_mentions_last(changes, id);
            assert(h.pending.contains_key(id) <==> q.pending.contains_key(id) || mentions(head, id));
        }
        assert forall|id: Seq<char>|
            q.pending.contains_key(id) && !mentions(changes, id) implies #[trigger] r.pending[id]
            == q.pending[id] by {
            lemma_mentions_last(changes, id);
            assert(h.pending[id] == q.pending[id]);
        }
        assert forall|i: int|
            0 <= i < changes.len() && !mentions(
                changes.skip(i + 1),
                (#[trigger] changes[i]).id(),
            ) implies r.pending[changes[i].id()].mutation == changes[i] by {
            let id = changes[i].id();
            if i < n {
                let rest = changes.skip(i + 1);
                assert(rest[n - i - 1] == last);
                assert(last.id() != id);
                assert(head[i] == changes[i]);
                if mentions(head.skip(i + 1), id) {
                    let j = choose|j: int|
                        0 <= j < head.skip(i + 1).len() && (#[trigger] head.skip(i + 1)[j]).id() == id;
                    assert(rest[j] == head.skip(i + 1)[j]);
                }
                assert(h.pending[id].mutation == changes[i]);
            }
        }
    }
}

/// The sessions that some changes are about.
pub open spec fn mentioned(changes: Seq<MutationView>) -> Set<Seq<char>> {
    changes.map_values(|m: MutationView| m.id()).to_set()
}

/// While the counter does not wrap, each change gets a greater number than every one before it,
/// and the change that waits for a session carries its own number.
pub proof fn numbers_rise(q: QueueView, changes: Seq<MutationView>)
    requires
        q.well_formed(),
        q.next_generation + changes.len() <= u64::MAX,
    ensures
        forall|i: int|
            0 <= i <= changes.len() ==> (#[trigger] enqueued_all(
                q,
                changes.take(i),
            )).next_generation == q.next_generation + i,
        forall|i: int|
            0 <= i < changes.len() && !mentions(
                changes.skip(i + 1),
                (#[trigger] changes[i]).id(),
            ) ==> enqueued_all(q, changes).pending[changes[i].id()].generation
                == q.next_generation + i,
    decreases changes.len(),
{
    if changes.len() == 0 {
        assert forall|i: int| 0 <= i <= changes.len() implies (#[trigger] enqueued_all(
            q,
            changes.take(i),
        )).next_generation == q.next_generation + i by {
            assert(changes.take(i) =~= changes);
        }
    } else {
        let head = changes.drop_last();
        let last = changes.last();
        let n = head.len() as int;
        numbers_rise(q, head);
        assert(head.take(n) =~= head);
        let h = enqueued_all(q, head);
        let r = enqueued_all(q, changes);
        assert(h.next_generation == q.next_generation + n);
        assert forall|i: int| 0 <= i <= changes.len() implies (#[trigger] enqueued_all(
            q,
            changes.take(i),
        )).next_generation == q.next_generation + i by {
            if i == changes.len() {
                assert(changes.take(i) =~= changes);
            } else {
                assert(changes.take(i) =~= head.take(i));
                assert(enqueued_all(q, head.take(i)).next_generation == q.next_generation + i);
            }
        }
        assert forall|i: int|
            0 <= i < changes.len() && !mentions(
                changes.skip(i + 1),
                (#[trigger] changes[i]).id(),
            ) implies r.pending[changes[i].id()].generation == q.next_generation + i by {
            let id = changes[i].id();
            if i < n {
                let rest = changes.skip(i + 1);
                assert(rest[n - i - 1] == last);
                assert(last.id() != id);
                assert(head[i] == changes[i]);
                if mentions(head.skip(i + 1), id) {
                    let j = choose|j: int|
                        0 <= j < head.skip(i + 1).len() && (#[trigger] head.skip(i + 1)[j]).id() == id;
                    assert(rest[j] == head.skip(i + 1)[j]);
                }
                assert(h.pending[id].generation == q.next_generation + i);
            }
        }
    }
}

/// After changes to a queue in which nothing waited, as many changes wait as there are different
/// sessions among them, and each of these sessions is in the order once.
pub proof fn one_change_waits_for_each_session(changes: Seq<MutationView>)
    ensures
        ({
            let r = enqueued_all(empty_queue(), changes);
            &&& r.pending.dom() == mentioned(changes)
            &&& r.order == order_with(Seq::empty(), changes)
            &&& r.order.no_duplicates()
            &&& r.order.to_set() == mentioned(changes)
            &&& r.order.len() == mentioned(changes).len()
        }),
{
    let q = empty_queue();
    assert(q.well_formed());
    the_last_change_of_each_session_waits(q, changes);
    let r = enqueued_all(q, changes);
    let ids = changes.map_values(|m: MutationView| m.id());
    assert forall|id: Seq<char>| #[trigger] mentioned(changes).contains(id) <==> mentions(
        changes,
        id,
    ) by {
        if mentions(changes, id) {
            let i = choose|i: int| 0 <= i < changes.len() && (#[trigger] changes[i]).id() == id;
            assert(ids[i] == id);
        }
        if ids.contains(id) {
            let i = choose|i: int| 0 <= i < ids.len() && ids[i] == id;
            assert(changes[i].id() == id);
        }
    }
    assert forall|id: Seq<char>| #[trigger] r.pending.dom().contains(id) <==> mentioned(
        changes,
    ).contains(id) by {
        assert(r.pending.contains_key(id) <==> mentions(changes, id));
    }
    assert(r.pending.dom() =~= mentioned(changes));
    assert forall|id: Seq<char>| #[trigger] r.order.to_set().contains(id) <==> mentioned(
        changes,
    ).contains(id) by {
        assert(r.pending.contains_key(id) <==> r.order.contains(id));
    }
    assert(r.order.to_set() =~= mentioned(changes));
    r.order.unique_seq_to_set();
}

/// What is said of these values is said of their own fields: none is left out or exchanged.
pub proof fn nothing_is_left_unseen(a: PendingSearchIndexMutation, b: SearchIndexQueue)
    ensures
        a@.generation == a.generation && a@.mutation == a.mutation@,
        forall|k: Seq<char>| #[trigger] b@.pending.contains_key(k) <==> b.pending@.contains_key(k),
        forall|k: Seq<char>|
            b.pending@.contains_key(k) ==> #[trigger] b@.pending[k] == b.pending@[k]@,
        b@.order.len() == b.order@.len(),
        forall|i: int|
            0 <= i < b.order@.len() ==> #[trigger] b@.order[i] == b.order@[i]@,
        b@.next_generation == b.next_generation && b@.in_flight == b.in_flight,
{
}

/// Each change is told from the other, and is about the session it names.
pub proof fn changes_are_told_apart(m: SearchIndexMutation)
    ensures
        m@ is Upsert <==> m is Upsert,
        m is Upsert ==> m@->session == (*m->session)@ && m@->Upsert_revision_path
            == m->Upsert_revision_path@ && m@->expected_revision == m->expected_revision@,
        m is Delete ==> m@->session_id == m->session_id@ && m@->Delete_revision_path
            == m->Delete_revision_path@,
        m@ is Upsert ==> m@.id() == m@->session.id,
        m@ is Delete ==> m@.id() == m@->session_id,
{
}

/// A new queue is empty and counts from one. A change that is added waits under its own session with
/// the next number, and everything else stays; one that is taken leaves nothing else changed but the
/// count of those under way. The queue is idle exactly where nothing waits and nothing is under way.
pub proof fn what_each_change_of_the_queue_does(q: QueueView, m: MutationView, id: Seq<char>)
    requires
        q.well_formed(),
        q.pending.dom().finite(),
    ensures
        empty_queue().order.len() == 0 && empty_queue().in_flight == 0
            && empty_queue().next_generation == 1 && !empty_queue().pending.contains_key(id),
        q.enqueued(m).pending[m.id()].generation == q.next_generation,
        q.enqueued(m).pending[m.id()].mutation == m,
        id != m.id() ==> (q.enqueued(m).pending.contains_key(id) <==> q.pending.contains_key(id)),
        q.next_generation < u64::MAX ==> q.enqueued(m).next_generation == q.next_generation + 1,
        q.next_generation == u64::MAX ==> q.enqueued(m).next_generation == 0,
        q.enqueued(m).in_flight == q.in_flight,
        !q.pending.contains_key(m.id()) ==> q.enqueued(m).order == q.order.push(m.id()),
        q.order.len() > 0 ==> ({
            let t = q.taken();
            &&& q.front() == Some(q.pending[q.order[0]])
            &&& t.order == q.order.skip(1)
            &&& t.next_generation == q.next_generation
            &&& q.in_flight < usize::MAX ==> t.in_flight == q.in_flight + 1
            &&& q.in_flight == usize::MAX ==> t.in_flight == 0
            &&& t.pending.contains_key(id) <==> id != q.order[0] && q.pending.contains_key(id)
            &&& t.pending.contains_key(id) ==> t.pending[id] == q.pending[id]
        }),
        q.order.len() == 0 ==> q.taken() == q && q.front() is None,
        q.idle() <==> q.order.len() == 0 && q.in_flight == 0,
{
    if q.order.len() > 0 {
        assert(q.order.contains(q.order[0]));
        assert(q.pending.contains_key(q.order[0]));
        assert(q.pending.dom().contains(q.order[0]));
        if q.pending.dom().len() == 0 {
            assert(q.pending.dom() =~= Set::empty());
        }
        assert(q.order.subrange(1, q.order.len() as int) =~= q.order.skip(1));
    } else {
        assert forall|k: Seq<char>| !#[trigger] q.pending.dom().contains(k) by {
            assert(q.pending.contains_key(k) <==> q.order.contains(k));
        }
        assert(q.pending.dom() =~= Set::empty());
    }
}

/// Ending a change takes back what taking it counted, and leaves what waits alone.
pub proof fn a_finished_change_is_no_longer_under_way(q: QueueView)
    requires
        q.front() is Some,
        q.in_flight < usize::MAX,
    ensures
        q.taken().finished().in_flight == q.in_flight,
        q.taken().finished().pending == q.taken().pending,
        q.taken().finished().order == q.taken().order,
        q.taken().finished().next_generation == q.next_generation,
{
}

/// An attempt that succeeds is the last. The first two that fail are tried again, each after another
/// twenty-five milliseconds more, and the third is given up.
pub proof fn attempts_are_bounded(attempt: usize)
    ensures
        next_attempt(attempt, true) == AttemptNext::Done,
        next_attempt(1, false) == AttemptNext::RetryAfter(25),
        next_attempt(2, false) == AttemptNext::RetryAfter(50),
        attempt >= 3 ==> next_attempt(attempt, false) == AttemptNext::GiveUp,
{
}

} // verus!
