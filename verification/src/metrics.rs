//! Bounded telemetry of saves: durations, their percentiles, and what the last save was like.
use std::collections::VecDeque;
use vstd::prelude::*;

verus! {

/// How many recent durations are kept.
pub const PERSISTENCE_METRIC_WINDOW: usize = 1024;

/// What a series of durations comes to, in milliseconds.
#[derive(Debug, Clone, Default, PartialEq, Eq)]
pub struct DurationMetricsSnapshot {
    pub count: u64,
    pub total_ms: u64,
    pub last_ms: u64,
    pub max_ms: u64,
    pub p50_ms: u64,
    pub p95_ms: u64,
}

/// What the saves of one kind come to.
#[derive(Debug, Clone, Default, PartialEq, Eq)]
pub struct SavePersistenceMetricsSnapshot {
    pub lock_wait: DurationMetricsSnapshot,
    pub lock_hold: DurationMetricsSnapshot,
    pub total: DurationMetricsSnapshot,
    pub directory_preparation: DurationMetricsSnapshot,
    pub serialization: DurationMetricsSnapshot,
    pub filesystem_commit: DurationMetricsSnapshot,
    pub index_publication: DurationMetricsSnapshot,
    pub search_enqueue: DurationMetricsSnapshot,
    pub last_serialized_bytes: usize,
    pub last_message_count: usize,
    pub last_index_entry_count: usize,
}

/// What all saves come to. No session id is kept, so that the telemetry stays bounded.
#[derive(Debug, Clone, Default, PartialEq, Eq)]
pub struct SessionPersistenceMetricsSnapshot {
    pub full_save: SavePersistenceMetricsSnapshot,
    pub runtime_save: SavePersistenceMetricsSnapshot,
    pub index_lock_wait: DurationMetricsSnapshot,
    pub index_lock_hold: DurationMetricsSnapshot,
    pub search_index: DurationMetricsSnapshot,
    pub create_latency: DurationMetricsSnapshot,
    pub waiting_saves: usize,
    pub active_saves: usize,
    pub pending_search_jobs: usize,
    pub active_search_jobs: usize,
}

// ------------------------------------------------------------------------- durations

/// A series of durations.
#[derive(Debug)]
pub struct DurationMetrics {
    pub count: u64,
    pub total_ms: u64,
    pub last_ms: u64,
    pub max_ms: u64,
    pub recent_ms: VecDeque<u64>,
}

/// What a [`DurationMetrics`] holds.
#[verifier::ext_equal]
pub struct DurationView {
    pub count: u64,
    pub total_ms: u64,
    pub last_ms: u64,
    pub max_ms: u64,
    pub recent_ms: Seq<u64>,
}

impl View for DurationMetrics {
    type V = DurationView;

    open spec fn view(&self) -> DurationView {
        DurationView {
            count: self.count,
            total_ms: self.total_ms,
            last_ms: self.last_ms,
            max_ms: self.max_ms,
            recent_ms: self.recent_ms@,
        }
    }
}

/// A sum that stays at the largest number once it is reached.
pub open spec fn saturated(a: int, b: int) -> u64 {
    if a + b <= u64::MAX {
        (a + b) as u64
    } else {
        u64::MAX
    }
}

/// A number of milliseconds as it is kept.
pub open spec fn kept_millis(millis: u128) -> u64 {
    if millis <= u64::MAX {
        millis as u64
    } else {
        u64::MAX
    }
}

/// The window with one more duration: the oldest leaves a full one.
pub open spec fn window_with(recent: Seq<u64>, m: u64) -> Seq<u64> {
    if recent.len() == PERSISTENCE_METRIC_WINDOW {
        recent.subrange(1, recent.len() as int).push(m)
    } else {
        recent.push(m)
    }
}

/// Whether one number is at most another.
pub open spec fn at_most(a: u64, b: u64) -> bool {
    a <= b
}

/// The numbers in ascending order.
pub open spec fn sorted(s: Seq<u64>) -> Seq<u64> {
    s.sort_by(|a: u64, b: u64| at_most(a, b))
}

/// Where in `n` ascending samples the percentile of a percentage stands, rounded up.
pub open spec fn percentile_index(n: int, percent: int) -> int {
    ((n - 1) * percent + 99) / 100
}

/// The percentile of a percentage.
pub open spec fn percentile(s: Seq<u64>, percent: int) -> u64 {
    if s.len() == 0 {
        0
    } else {
        sorted(s)[percentile_index(s.len() as int, percent)]
    }
}

impl DurationView {
    /// Whether the window holds no more than it may.
    pub open spec fn bounded(self) -> bool {
        self.recent_ms.len() <= PERSISTENCE_METRIC_WINDOW
    }

    /// The series with one more duration.
    pub open spec fn recorded(self, millis: u128) -> DurationView {
        let m = kept_millis(millis);
        DurationView {
            count: saturated(self.count as int, 1),
            total_ms: saturated(self.total_ms as int, m as int),
            last_ms: m,
            max_ms: if self.max_ms < m {
                m
            } else {
                self.max_ms
            },
            recent_ms: window_with(self.recent_ms, m),
        }
    }

    /// What the series comes to.
    pub open spec fn snapshot(self) -> DurationMetricsSnapshot {
        DurationMetricsSnapshot {
            count: self.count,
            total_ms: self.total_ms,
            last_ms: self.last_ms,
            max_ms: self.max_ms,
            p50_ms: percentile(self.recent_ms, 50),
            p95_ms: percentile(self.recent_ms, 95),
        }
    }
}

/// A series without a duration.
pub open spec fn no_durations() -> DurationView {
    DurationView { count: 0, total_ms: 0, last_ms: 0, max_ms: 0, recent_ms: Seq::empty() }
}

proof fn lemma_order_is_total()
    ensures
        vstd::relations::total_ordering(|a: u64, b: u64| at_most(a, b)),
{
}

fn sort_samples(v: &VecDeque<u64>) -> (r: Vec<u64>)
    ensures
        r@ == sorted(v@),
        r.len() == v@.len(),
{
    let mut out: Vec<u64> = Vec::new();
    let mut i: usize = 0;
    let ghost all = v@;
    assert(all.take(0) =~= out@);
    while i < v.len()
        invariant
            i <= v@.len(),
            v@ == all,
            out.len() == i,
            forall|a: int, b: int| 0 <= a < b < out.len() ==> #[trigger] at_most(out[a], out[b]),
            out@.to_multiset() == all.take(i as int).to_multiset(),
        decreases v@.len() - i,
    {
        let item: u64 = v[i];
        let mut k: usize = out.len();
        while k > 0 && item < out[k - 1]
            invariant
                k <= out.len(),
                forall|j: int| k <= j < out.len() ==> item < #[trigger] out@[j],
            decreases k,
        {
            k = k - 1;
        }
        let ghost earlier = out@;
        assert forall|j: int| 0 <= j < k implies #[trigger] earlier[j] <= item by {
            if j < k - 1 {
                assert(at_most(earlier[j], earlier[k - 1]));
            }
        }
        out.insert(k, item);
        proof {
            broadcast use vstd::seq_lib::group_to_multiset_ensures;

            assert(out@ =~= earlier.insert(k as int, item));
            assert forall|a: int, b: int| 0 <= a < b < out@.len() implies #[trigger] at_most(
                out@[a],
                out@[b],
            ) by {
                if a == k || b == k {
                    if a < k {
                        assert(earlier[a] <= item);
                    }
                    if b > k {
                        assert(item < earlier[b - 1]);
                    }
                } else {
                    let x = if a < k {
                        a
                    } else {
                        a - 1
                    };
                    let y = if b < k {
                        b
                    } else {
                        b - 1
                    };
                    assert(at_most(earlier[x], earlier[y]));
                }
            }
            assert(all.take(i + 1) =~= all.take(i as int).push(item));
        }
        i = i + 1;
    }
    proof {
        assert(all.take(all.len() as int) =~= all);
        let leq = |a: u64, b: u64| at_most(a, b);
        lemma_order_is_total();
        all.lemma_sort_by_ensures(leq);
        assert(vstd::relations::sorted_by(out@, leq)) by {
            assert forall|a: int, b: int| 0 <= a < b < out@.len() implies #[trigger] leq(
                out@[a],
                out@[b],
            ) by {
                assert(at_most(out@[a], out@[b]));
            }
        }
        vstd::seq_lib::lemma_sorted_unique(out@, all.sort_by(leq), leq);
    }
    out
}

fn pick(samples: &Vec<u64>, percent: usize) -> (r: u64)
    requires
        samples.len() <= PERSISTENCE_METRIC_WINDOW,
        percent <= 100,
    ensures
        r == if samples.len() == 0 {
            0
        } else {
            samples@[percentile_index(samples.len() as int, percent as int)]
        },
{
    if samples.len() == 0 {
        return 0;
    }
    let n: usize = samples.len() - 1;
    assert(n * percent <= 1023 * 100) by (nonlinear_arith)
        requires
            n <= 1023,
            percent <= 100,
    ;
    assert((n * percent + 99) / 100 <= n) by (nonlinear_arith)
        requires
            percent <= 100,
            n >= 0,
    ;
    let index: usize = (n * percent + 99) / 100;
    samples[index]
}

impl Default for DurationMetrics {
    /// A series without a duration.
    fn default() -> (r: DurationMetrics)
        ensures
            r@ == no_durations(),
    {
        let r = DurationMetrics {
            count: 0,
            total_ms: 0,
            last_ms: 0,
            max_ms: 0,
            recent_ms: VecDeque::new(),
        };
        assert(r@ =~= no_durations());
        r
    }
}

impl DurationMetrics {
    /// Adds a duration of some milliseconds.
    pub fn record(&mut self, millis: u128)
        ensures
            final(self)@ == old(self)@.recorded(millis),
    {
        let ghost original = self@;
        let m: u64 = if millis <= u64::MAX as u128 {
            millis as u64
        } else {
            u64::MAX
        };
        self.count = self.count.saturating_add(1);
        self.total_ms = self.total_ms.saturating_add(m);
        self.last_ms = m;
        if self.max_ms < m {
            self.max_ms = m;
        }
        if self.recent_ms.len() == PERSISTENCE_METRIC_WINDOW {
            let _ = self.recent_ms.pop_front();
        }
        self.recent_ms.push_back(m);
        assert(self@ =~= original.recorded(millis));
    }

    /// What the series comes to.
    pub fn snapshot(&self) -> (r: DurationMetricsSnapshot)
        requires
            self@.bounded(),
        ensures
            r == self@.snapshot(),
    {
        let samples = sort_samples(&self.recent_ms);
        DurationMetricsSnapshot {
            count: self.count,
            total_ms: self.total_ms,
            last_ms: self.last_ms,
            max_ms: self.max_ms,
            p50_ms: pick(&samples, 50),
            p95_ms: pick(&samples, 95),
        }
    }
}

// ------------------------------------------------------------------------------ saves

/// What is measured of the saves of one kind.
#[derive(Debug)]
pub struct SavePersistenceMetrics {
    pub lock_wait: DurationMetrics,
    pub lock_hold: DurationMetrics,
    pub total: DurationMetrics,
    pub directory_preparation: DurationMetrics,
    pub serialization: DurationMetrics,
    pub filesystem_commit: DurationMetrics,
    pub index_publication: DurationMetrics,
    pub search_enqueue: DurationMetrics,
    pub last_serialized_bytes: usize,
    pub last_message_count: usize,
    pub last_index_entry_count: usize,
}

/// What a [`SavePersistenceMetrics`] holds.
#[verifier::ext_equal]
pub struct SaveMetricsView {
    pub lock_wait: DurationView,
    pub lock_hold: DurationView,
    pub total: DurationView,
    pub directory_preparation: DurationView,
    pub serialization: DurationView,
    pub filesystem_commit: DurationView,
    pub index_publication: DurationView,
    pub search_enqueue: DurationView,
    pub last_serialized_bytes: usize,
    pub last_message_count: usize,
    pub last_index_entry_count: usize,
}

impl View for SavePersistenceMetrics {
    type V = SaveMetricsView;

    open spec fn view(&self) -> SaveMetricsView {
        SaveMetricsView {
            lock_wait: self.lock_wait@,
            lock_hold: self.lock_hold@,
            total: self.total@,
            directory_preparation: self.directory_preparation@,
            serialization: self.serialization@,
            filesystem_commit: self.filesystem_commit@,
            index_publication: self.index_publication@,
            search_enqueue: self.search_enqueue@,
            last_serialized_bytes: self.last_serialized_bytes,
            last_message_count: self.last_message_count,
            last_index_entry_count: self.last_index_entry_count,
        }
    }
}

/// How long the stages of a save took, in milliseconds.
#[derive(Debug, Clone, Copy, Default)]
pub struct SaveStageDurations {
    pub directory_preparation: u128,
    pub serialization: u128,
    pub filesystem_commit: u128,
    pub index_publication: u128,
    pub search_enqueue: u128,
}

/// Nothing measured yet.
pub open spec fn no_saves() -> SaveMetricsView {
    SaveMetricsView {
        lock_wait: no_durations(),
        lock_hold: no_durations(),
        total: no_durations(),
        directory_preparation: no_durations(),
        serialization: no_durations(),
        filesystem_commit: no_durations(),
        index_publication: no_durations(),
        search_enqueue: no_durations(),
        last_serialized_bytes: 0,
        last_message_count: 0,
        last_index_entry_count: 0,
    }
}

impl SaveMetricsView {
    /// Whether every window holds no more than it may.
    pub open spec fn bounded(self) -> bool {
        &&& self.lock_wait.bounded() && self.lock_hold.bounded() && self.total.bounded()
        &&& self.directory_preparation.bounded() && self.serialization.bounded()
        &&& self.filesystem_commit.bounded() && self.index_publication.bounded()
        &&& self.search_enqueue.bounded()
    }

    /// What the saves come to.
    pub open spec fn snapshot(self) -> SavePersistenceMetricsSnapshot {
        SavePersistenceMetricsSnapshot {
            lock_wait: self.lock_wait.snapshot(),
            lock_hold: self.lock_hold.snapshot(),
            total: self.total.snapshot(),
            directory_preparation: self.directory_preparation.snapshot(),
            serialization: self.serialization.snapshot(),
            filesystem_commit: self.filesystem_commit.snapshot(),
            index_publication: self.index_publication.snapshot(),
            search_enqueue: self.search_enqueue.snapshot(),
            last_serialized_bytes: self.last_serialized_bytes,
            last_message_count: self.last_message_count,
            last_index_entry_count: self.last_index_entry_count,
        }
    }

    /// The measurements with one more save.
    pub open spec fn saved(
        self,
        total: u128,
        stages: SaveStageDurations,
        serialized_bytes: usize,
        message_count: usize,
        index_entry_count: usize,
    ) -> SaveMetricsView {
        SaveMetricsView {
            total: self.total.recorded(total),
            directory_preparation: self.directory_preparation.recorded(
                stages.directory_preparation,
            ),
            serialization: self.serialization.recorded(stages.serialization),
            filesystem_commit: self.filesystem_commit.recorded(stages.filesystem_commit),
            index_publication: self.index_publication.recorded(stages.index_publication),
            search_enqueue: self.search_enqueue.recorded(stages.search_enqueue),
            last_serialized_bytes: serialized_bytes,
            last_message_count: message_count,
            last_index_entry_count: index_entry_count,
            ..self
        }
    }
}

impl Default for SavePersistenceMetrics {
    /// Nothing measured yet.
    fn default() -> (r: SavePersistenceMetrics)
        ensures
            r@ == no_saves(),
    {
        SavePersistenceMetrics {
            lock_wait: DurationMetrics::default(),
            lock_hold: DurationMetrics::default(),
            total: DurationMetrics::default(),
            directory_preparation: DurationMetrics::default(),
            serialization: DurationMetrics::default(),
            filesystem_commit: DurationMetrics::default(),
            index_publication: DurationMetrics::default(),
            search_enqueue: DurationMetrics::default(),
            last_serialized_bytes: 0,
            last_message_count: 0,
            last_index_entry_count: 0,
        }
    }
}

impl SavePersistenceMetrics {
    /// What the saves come to.
    pub fn snapshot(&self) -> (r: SavePersistenceMetricsSnapshot)
        requires
            self@.bounded(),
        ensures
            r == self@.snapshot(),
    {
        SavePersistenceMetricsSnapshot {
            lock_wait: self.lock_wait.snapshot(),
            lock_hold: self.lock_hold.snapshot(),
            total: self.total.snapshot(),
            directory_preparation: self.directory_preparation.snapshot(),
            serialization: self.serialization.snapshot(),
            filesystem_commit: self.filesystem_commit.snapshot(),
            index_publication: self.index_publication.snapshot(),
            search_enqueue: self.search_enqueue.snapshot(),
            last_serialized_bytes: self.last_serialized_bytes,
            last_message_count: self.last_message_count,
            last_index_entry_count: self.last_index_entry_count,
        }
    }
}

/// What a save writes: the session with its history, or its control plane alone.
#[derive(Debug, Clone, Copy, PartialEq, Eq, Structural)]
pub enum SaveKind {
    Full,
    Runtime,
}

impl SaveKind {
    /// The name of the kind.
    pub fn as_str(self) -> (r: &'static str)
        ensures
            r@ == match self {
                SaveKind::Full => "full"@,
                SaveKind::Runtime => "runtime"@,
            },
    {
        match self {
            SaveKind::Full => "full",
            SaveKind::Runtime => "runtime",
        }
    }
}

/// What is measured of all saves.
#[derive(Debug)]
pub struct SessionPersistenceMetrics {
    pub full_save: SavePersistenceMetrics,
    pub runtime_save: SavePersistenceMetrics,
    pub index_lock_wait: DurationMetrics,
    pub index_lock_hold: DurationMetrics,
    pub search_index: DurationMetrics,
    pub create_latency: DurationMetrics,
    pub waiting_saves: usize,
    pub active_saves: usize,
}

/// What a [`SessionPersistenceMetrics`] holds.
#[verifier::ext_equal]
pub struct MetricsView {
    pub full_save: SaveMetricsView,
    pub runtime_save: SaveMetricsView,
    pub index_lock_wait: DurationView,
    pub index_lock_hold: DurationView,
    pub search_index: DurationView,
    pub create_latency: DurationView,
    pub waiting_saves: usize,
    pub active_saves: usize,
}

impl View for SessionPersistenceMetrics {
    type V = MetricsView;

    open spec fn view(&self) -> MetricsView {
        MetricsView {
            full_save: self.full_save@,
            runtime_save: self.runtime_save@,
            index_lock_wait: self.index_lock_wait@,
            index_lock_hold: self.index_lock_hold@,
            search_index: self.search_index@,
            create_latency: self.create_latency@,
            waiting_saves: self.waiting_saves,
            active_saves: self.active_saves,
        }
    }
}

/// Nothing measured yet.
pub open spec fn no_metrics() -> MetricsView {
    MetricsView {
        full_save: no_saves(),
        runtime_save: no_saves(),
        index_lock_wait: no_durations(),
        index_lock_hold: no_durations(),
        search_index: no_durations(),
        create_latency: no_durations(),
        waiting_saves: 0,
        active_saves: 0,
    }
}

impl MetricsView {
    /// Whether every window holds no more than it may.
    pub open spec fn bounded(self) -> bool {
        &&& self.full_save.bounded() && self.runtime_save.bounded()
        &&& self.index_lock_wait.bounded() && self.index_lock_hold.bounded()
        &&& self.search_index.bounded() && self.create_latency.bounded()
    }

    /// The measurements of one kind of save.
    pub open spec fn of_kind(self, kind: SaveKind) -> SaveMetricsView {
        match kind {
            SaveKind::Full => self.full_save,
            SaveKind::Runtime => self.runtime_save,
        }
    }

    /// The measurements with those of one kind of save replaced.
    pub open spec fn with_kind(self, kind: SaveKind, m: SaveMetricsView) -> MetricsView {
        match kind {
            SaveKind::Full => MetricsView { full_save: m, ..self },
            SaveKind::Runtime => MetricsView { runtime_save: m, ..self },
        }
    }
}

impl Default for SessionPersistenceMetrics {
    /// Nothing measured yet.
    fn default() -> (r: SessionPersistenceMetrics)
        ensures
            r@ == no_metrics(),
    {
        SessionPersistenceMetrics {
            full_save: SavePersistenceMetrics::default(),
            runtime_save: SavePersistenceMetrics::default(),
            index_lock_wait: DurationMetrics::default(),
            index_lock_hold: DurationMetrics::default(),
            search_index: DurationMetrics::default(),
            create_latency: DurationMetrics::default(),
            waiting_saves: 0,
            active_saves: 0,
        }
    }
}

impl SessionPersistenceMetrics {
    /// Gives the measurements of one kind of save to be changed.
    pub fn with_save_mut(&mut self, kind: SaveKind) -> (r: &mut SavePersistenceMetrics)
        ensures
            (*r)@ == old(self)@.of_kind(kind),
            final(self)@ == old(self)@.with_kind(kind, (*final(r))@),
    {
        match kind {
            SaveKind::Full => &mut self.full_save,
            SaveKind::Runtime => &mut self.runtime_save,
        }
    }

    /// Records how long a save waited for its session's lock.
    pub fn record_lock_wait(&mut self, kind: SaveKind, millis: u128)
        ensures
            final(self)@ == old(self)@.with_kind(
                kind,
                SaveMetricsView {
                    lock_wait: old(self)@.of_kind(kind).lock_wait.recorded(millis),
                    ..old(self)@.of_kind(kind)
                },
            ),
    {
        self.with_save_mut(kind).lock_wait.record(millis);
    }

    /// Records how long a save held its session's lock.
    pub fn record_lock_hold(&mut self, kind: SaveKind, millis: u128)
        ensures
            final(self)@ == old(self)@.with_kind(
                kind,
                SaveMetricsView {
                    lock_hold: old(self)@.of_kind(kind).lock_hold.recorded(millis),
                    ..old(self)@.of_kind(kind)
                },
            ),
    {
        self.with_save_mut(kind).lock_hold.record(millis);
    }

    /// Records a save.
    pub fn record_save(
        &mut self,
        kind: SaveKind,
        total: u128,
        stages: SaveStageDurations,
        serialized_bytes: usize,
        message_count: usize,
        index_entry_count: usize,
    )
        ensures
            final(self)@ == old(self)@.with_kind(
                kind,
                old(self)@.of_kind(kind).saved(
                    total,
                    stages,
                    serialized_bytes,
                    message_count,
                    index_entry_count,
                ),
            ),
    {
        let metrics = self.with_save_mut(kind);
        metrics.total.record(total);
        metrics.directory_preparation.record(stages.directory_preparation);
        metrics.serialization.record(stages.serialization);
        metrics.filesystem_commit.record(stages.filesystem_commit);
        metrics.index_publication.record(stages.index_publication);
        metrics.search_enqueue.record(stages.search_enqueue);
        metrics.last_serialized_bytes = serialized_bytes;
        metrics.last_message_count = message_count;
        metrics.last_index_entry_count = index_entry_count;
    }

    /// Records how long a change of the index waited for its lock.
    pub fn record_index_lock_wait(&mut self, millis: u128)
        ensures
            final(self)@ == (MetricsView {
                index_lock_wait: old(self)@.index_lock_wait.recorded(millis),
                ..old(self)@
            }),
    {
        self.index_lock_wait.record(millis);
    }

    /// Records how long a change of the index held its lock.
    pub fn record_index_lock_hold(&mut self, millis: u128)
        ensures
            final(self)@ == (MetricsView {
                index_lock_hold: old(self)@.index_lock_hold.recorded(millis),
                ..old(self)@
            }),
    {
        self.index_lock_hold.record(millis);
    }

    /// Records how long a change of the search index took.
    pub fn record_search_index(&mut self, millis: u128)
        ensures
            final(self)@ == (MetricsView {
                search_index: old(self)@.search_index.recorded(millis),
                ..old(self)@
            }),
    {
        self.search_index.record(millis);
    }

    /// Records how long creating a session took.
    pub fn record_create_latency(&mut self, millis: u128)
        ensures
            final(self)@ == (MetricsView {
                create_latency: old(self)@.create_latency.recorded(millis),
                ..old(self)@
            }),
    {
        self.create_latency.record(millis);
    }

    /// What everything comes to.
    pub fn snapshot(&self, pending_search_jobs: usize, active_search_jobs: usize) -> (r:
        SessionPersistenceMetricsSnapshot)
        requires
            self@.bounded(),
        ensures
            r == (SessionPersistenceMetricsSnapshot {
                full_save: self@.full_save.snapshot(),
                runtime_save: self@.runtime_save.snapshot(),
                index_lock_wait: self@.index_lock_wait.snapshot(),
                index_lock_hold: self@.index_lock_hold.snapshot(),
                search_index: self@.search_index.snapshot(),
                create_latency: self@.create_latency.snapshot(),
                waiting_saves: self@.waiting_saves,
                active_saves: self@.active_saves,
                pending_search_jobs,
                active_search_jobs,
            }),
    {
        SessionPersistenceMetricsSnapshot {
            full_save: self.full_save.snapshot(),
            runtime_save: self.runtime_save.snapshot(),
            index_lock_wait: self.index_lock_wait.snapshot(),
            index_lock_hold: self.index_lock_hold.snapshot(),
            search_index: self.search_index.snapshot(),
            create_latency: self.create_latency.snapshot(),
            waiting_saves: self.waiting_saves,
            active_saves: self.active_saves,
            pending_search_jobs,
            active_search_jobs,
        }
    }
}

// ------------------------------------------------------------------------------- laws

/// Recording never makes a window grow past its bound, and keeps the duration just recorded.
pub proof fn windows_stay_bounded(d: DurationView, millis: u128)
    requires
        d.bounded(),
    ensures
        d.recorded(millis).bounded(),
        d.recorded(millis).recent_ms.last() == d.recorded(millis).last_ms,
{
}

/// What is measured starts bounded and stays so, whatever is recorded.
pub proof fn measurements_stay_bounded(
    m: SaveMetricsView,
    total: u128,
    stages: SaveStageDurations,
    serialized_bytes: usize,
    message_count: usize,
    index_entry_count: usize,
)
    requires
        m.bounded(),
    ensures
        no_metrics().bounded(),
        m.saved(total, stages, serialized_bytes, message_count, index_entry_count).bounded(),
{
}

/// The percentiles of a series are durations of its window, in order.
pub proof fn percentiles_are_ordered(d: DurationView)
    requires
        d.recent_ms.len() > 0,
    ensures
        d.recent_ms.contains(d.snapshot().p50_ms),
        d.recent_ms.contains(d.snapshot().p95_ms),
        d.snapshot().p50_ms <= d.snapshot().p95_ms,
{
    let leq = |a: u64, b: u64| at_most(a, b);
    let s = d.recent_ms;
    lemma_order_is_total();
    s.lemma_sort_by_ensures(leq);
    s.to_multiset_ensures();
    sorted(s).to_multiset_ensures();
    let n = s.len() as int;
    assert(sorted(s).len() == n);
    let i = percentile_index(n, 50);
    let j = percentile_index(n, 95);
    assert(0 <= i <= j < n) by (nonlinear_arith)
        requires
            n > 0,
            i == ((n - 1) * 50 + 99) / 100,
            j == ((n - 1) * 95 + 99) / 100,
    ;
    assert(sorted(s).contains(sorted(s)[i]));
    assert(sorted(s).contains(sorted(s)[j]));
    if i < j {
        assert(leq(sorted(s)[i], sorted(s)[j]));
    }
}

/// Some durations as they are kept.
pub open spec fn all_kept(samples: Seq<u128>) -> Seq<u64> {
    samples.map_values(|m: u128| kept_millis(m))
}

/// A series with some more durations, one after the other.
pub open spec fn recorded_all(d: DurationView, samples: Seq<u128>) -> DurationView
    decreases samples.len(),
{
    if samples.len() == 0 {
        d
    } else {
        recorded_all(d, samples.drop_last()).recorded(samples.last())
    }
}

/// The sum of some durations.
pub open spec fn total_of(kept: Seq<u64>) -> int
    decreases kept.len(),
{
    if kept.len() == 0 {
        0
    } else {
        total_of(kept.drop_last()) + kept.last()
    }
}

/// Whether a number is the largest of some durations, or zero where there are none.
pub open spec fn largest_of(kept: Seq<u64>, m: u64) -> bool {
    &&& forall|i: int| 0 <= i < kept.len() ==> #[trigger] kept[i] <= m
    &&& kept.len() > 0 ==> kept.contains(m)
    &&& kept.len() == 0 ==> m == 0
}

/// The last of some durations that a window holds.
pub open spec fn window_of(kept: Seq<u64>) -> Seq<u64> {
    if kept.len() <= PERSISTENCE_METRIC_WINDOW {
        kept
    } else {
        kept.subrange(kept.len() - PERSISTENCE_METRIC_WINDOW, kept.len() as int)
    }
}

proof fn lemma_total_is_not_negative(kept: Seq<u64>)
    ensures
        total_of(kept) >= 0,
    decreases kept.len(),
{
    if kept.len() > 0 {
        lemma_total_is_not_negative(kept.drop_last());
    }
}

/// After any number of durations a series holds how many there were and what they add up to, each
/// up to the largest number that it can hold, the last and the largest of them, and the most
/// recent ones, as many as the window takes.
pub proof fn records_add_up(samples: Seq<u128>)
    ensures
        ({
            let d = recorded_all(no_durations(), samples);
            let kept = all_kept(samples);
            &&& d.count == saturated(samples.len() as int, 0)
            &&& d.total_ms == saturated(total_of(kept), 0)
            &&& samples.len() > 0 ==> d.last_ms == kept.last()
            &&& largest_of(kept, d.max_ms)
            &&& d.recent_ms == window_of(kept)
        }),
    decreases samples.len(),
{
    let kept = all_kept(samples);
    if samples.len() > 0 {
        let head = samples.drop_last();
        let m = kept_millis(samples.last());
        records_add_up(head);
        let before = recorded_all(no_durations(), head);
        let after = recorded_all(no_durations(), samples);
        let earlier = all_kept(head);
        assert(kept.drop_last() =~= earlier);
        assert(kept.last() == m);
        lemma_total_is_not_negative(earlier);
        assert(largest_of(kept, after.max_ms)) by {
            assert forall|i: int| 0 <= i < kept.len() implies #[trigger] kept[i] <= after.max_ms by {
                if i < earlier.len() {
                    assert(kept[i] == earlier[i]);
                }
            }
            if before.max_ms < m {
                assert(kept[kept.len() - 1] == m);
            } else if earlier.len() > 0 {
                let i = choose|i: int| 0 <= i < earlier.len() && earlier[i] == before.max_ms;
                assert(kept[i] == before.max_ms);
            } else {
                assert(kept[0] == m);
            }
        }
        assert(after.recent_ms =~= window_of(kept)) by {
            assert(before.recent_ms == window_of(earlier));
            assert(kept =~= earlier.push(m));
        }
    } else {
        assert(kept =~= Seq::<u64>::empty());
    }
}

/// Of a series that was recorded from its beginning, the last duration and both percentiles are at
/// most the largest one.
pub proof fn nothing_exceeds_the_largest(samples: Seq<u128>)
    requires
        samples.len() > 0,
    ensures
        ({
            let s = recorded_all(no_durations(), samples).snapshot();
            &&& s.last_ms <= s.max_ms
            &&& s.p50_ms <= s.p95_ms
            &&& s.p95_ms <= s.max_ms
        }),
{
    let d = recorded_all(no_durations(), samples);
    let kept = all_kept(samples);
    records_add_up(samples);
    percentiles_are_ordered(d);
    assert(kept[kept.len() - 1] == d.last_ms);
    let p = d.snapshot().p95_ms;
    let i = choose|i: int| 0 <= i < d.recent_ms.len() && d.recent_ms[i] == p;
    if kept.len() <= PERSISTENCE_METRIC_WINDOW {
        assert(kept[i] == p);
    } else {
        assert(kept[kept.len() - PERSISTENCE_METRIC_WINDOW + i] == p);
    }
}

/// What is said of these values is said of their own fields: none is left out or exchanged.
pub proof fn nothing_is_left_unseen(
    a: DurationMetrics,
    b: SavePersistenceMetrics,
    c: SessionPersistenceMetrics,
)
    ensures
        a@.count == a.count && a@.total_ms == a.total_ms,
        a@.last_ms == a.last_ms && a@.max_ms == a.max_ms,
        a@.recent_ms == a.recent_ms@,
        b@.lock_wait == b.lock_wait@ && b@.lock_hold == b.lock_hold@,
        b@.total == b.total@ && b@.directory_preparation == b.directory_preparation@,
        b@.serialization == b.serialization@ && b@.filesystem_commit == b.filesystem_commit@,
        b@.index_publication == b.index_publication@ && b@.search_enqueue == b.search_enqueue@,
        b@.last_serialized_bytes == b.last_serialized_bytes && b@.last_message_count == b.last_message_count,
        b@.last_index_entry_count == b.last_index_entry_count,
        c@.full_save == c.full_save@ && c@.runtime_save == c.runtime_save@,
        c@.index_lock_wait == c.index_lock_wait@ && c@.index_lock_hold == c.index_lock_hold@,
        c@.search_index == c.search_index@ && c@.create_latency == c.create_latency@,
        c@.waiting_saves == c.waiting_saves && c@.active_saves == c.active_saves,
{
}

/// The samples in ascending order are the very samples, each as often.
pub proof fn sorting_keeps_the_samples(s: Seq<u64>)
    ensures
        sorted(s).to_multiset() == s.to_multiset(),
        forall|i: int, j: int|
            0 <= i < j < sorted(s).len() ==> #[trigger] sorted(s)[i] <= #[trigger] sorted(s)[j],
        sorted(s).len() == s.len(),
{
    lemma_order_is_total();
    let leq = |a: u64, b: u64| at_most(a, b);
    s.lemma_sort_by_ensures(leq);
    s.to_multiset_ensures();
    sorted(s).to_multiset_ensures();
    assert forall|i: int, j: int| 0 <= i < j < sorted(s).len() implies #[trigger] sorted(s)[i]
        <= #[trigger] sorted(s)[j] by {
        assert(leq(sorted(s)[i], sorted(s)[j]));
    }
}

/// A percentile is the sample that stands that share of the way from the least to the greatest,
/// rounded up to the next; the whole way is the greatest, none of it the least, and without samples
/// it is zero.
pub proof fn where_a_percentile_stands(s: Seq<u64>, percent: int)
    requires
        0 <= percent <= 100,
    ensures
        s.len() == 0 ==> percentile(s, percent) == 0,
        s.len() > 0 ==> exists|i: int|
            0 <= i < s.len() && (s.len() - 1) * percent <= 100 * i && 100 * i < (s.len() - 1) * percent
                + 100 && percentile(s, percent) == #[trigger] sorted(s)[i],
{
    if s.len() > 0 {
        let n = s.len() as int;
        let i = percentile_index(n, percent);
        sorting_keeps_the_samples(s);
        assert(0 <= (n - 1) * percent <= (n - 1) * 100) by (nonlinear_arith)
            requires
                n >= 1,
                0 <= percent <= 100,
        ;
        assert(0 <= i < n && (n - 1) * percent <= 100 * i && 100 * i < (n - 1) * percent + 100);
        assert(percentile(s, percent) == sorted(s)[i]);
    }
}

/// A duration that is recorded becomes the last, raises the greatest where it is greater, and adds to
/// the count and to the total, neither of which goes past the largest number; the window keeps the
/// latest durations, as many as it may.
pub proof fn what_a_record_does(d: DurationView, millis: u128)
    requires
        d.bounded(),
    ensures
        ({
            let r = d.recorded(millis);
            &&& millis <= u64::MAX ==> r.last_ms == millis
            &&& millis > u64::MAX ==> r.last_ms == u64::MAX
            &&& r.max_ms >= d.max_ms && r.max_ms >= r.last_ms && (r.max_ms == d.max_ms || r.max_ms
                == r.last_ms)
            &&& d.count < u64::MAX ==> r.count == d.count + 1
            &&& d.count == u64::MAX ==> r.count == u64::MAX
            &&& d.total_ms + r.last_ms <= u64::MAX ==> r.total_ms == d.total_ms + r.last_ms
            &&& d.total_ms + r.last_ms > u64::MAX ==> r.total_ms == u64::MAX
            &&& d.recent_ms.len() < 1024 ==> r.recent_ms == d.recent_ms.push(r.last_ms)
            &&& d.recent_ms.len() == 1024 ==> r.recent_ms == d.recent_ms.skip(1).push(r.last_ms)
        }),
        no_durations().count == 0 && no_durations().total_ms == 0 && no_durations().last_ms == 0
            && no_durations().max_ms == 0 && no_durations().recent_ms.len() == 0,
{
    if d.recent_ms.len() == 1024 {
        assert(d.recent_ms.subrange(1, 1024) =~= d.recent_ms.skip(1));
    }
}

/// A save is recorded in the measurements of its own kind alone, each stage under its own name, and
/// the locks are left alone.
pub proof fn a_save_is_recorded_by_stage(
    m: MetricsView,
    kind: SaveKind,
    other: SaveMetricsView,
    s: SaveMetricsView,
    total: u128,
    stages: SaveStageDurations,
    bytes: usize,
    messages: usize,
    entries: usize,
)
    ensures
        m.of_kind(SaveKind::Full) == m.full_save && m.of_kind(SaveKind::Runtime) == m.runtime_save,
        m.with_kind(kind, other).of_kind(kind) == other,
        kind == SaveKind::Full ==> m.with_kind(kind, other) == (MetricsView {
            full_save: other,
            ..m
        }),
        kind == SaveKind::Runtime ==> m.with_kind(kind, other) == (MetricsView {
            runtime_save: other,
            ..m
        }),
        ({
            let r = s.saved(total, stages, bytes, messages, entries);
            &&& r.total == s.total.recorded(total)
            &&& r.directory_preparation == s.directory_preparation.recorded(
                stages.directory_preparation,
            )
            &&& r.serialization == s.serialization.recorded(stages.serialization)
            &&& r.filesystem_commit == s.filesystem_commit.recorded(stages.filesystem_commit)
            &&& r.index_publication == s.index_publication.recorded(stages.index_publication)
            &&& r.search_enqueue == s.search_enqueue.recorded(stages.search_enqueue)
            &&& r.lock_wait == s.lock_wait && r.lock_hold == s.lock_hold
            &&& r.last_serialized_bytes == bytes && r.last_message_count == messages
            &&& r.last_index_entry_count == entries
        }),
{
}

/// A snapshot tells each series under its own name, with the middle and the ninety-fifth percentile.
pub proof fn a_snapshot_tells_every_series(d: DurationView, s: SaveMetricsView)
    ensures
        d.snapshot().count == d.count && d.snapshot().total_ms == d.total_ms,
        d.snapshot().last_ms == d.last_ms && d.snapshot().max_ms == d.max_ms,
        d.snapshot().p50_ms == percentile(d.recent_ms, 50),
        d.snapshot().p95_ms == percentile(d.recent_ms, 95),
        s.snapshot().lock_wait == s.lock_wait.snapshot() && s.snapshot().lock_hold
            == s.lock_hold.snapshot(),
        s.snapshot().total == s.total.snapshot() && s.snapshot().directory_preparation
            == s.directory_preparation.snapshot(),
        s.snapshot().serialization == s.serialization.snapshot() && s.snapshot().filesystem_commit
            == s.filesystem_commit.snapshot(),
        s.snapshot().index_publication == s.index_publication.snapshot()
            && s.snapshot().search_enqueue == s.search_enqueue.snapshot(),
        s.snapshot().last_serialized_bytes == s.last_serialized_bytes
            && s.snapshot().last_message_count == s.last_message_count,
        s.snapshot().last_index_entry_count == s.last_index_entry_count,
        no_saves().last_serialized_bytes == 0 && no_saves().last_message_count == 0
            && no_saves().last_index_entry_count == 0,
        no_metrics().waiting_saves == 0 && no_metrics().active_saves == 0,
        no_metrics().full_save == no_saves() && no_metrics().runtime_save == no_saves(),
        no_saves().total == no_durations() && no_saves().lock_wait == no_durations(),
{
}

} // verus!
