use bamboo_storage::error::{ErrorKind, StorageError};
use bamboo_storage::index::{
    open_index, project_id_text, IndexFile, SessionsIndex, SESSIONS_INDEX_VERSION,
};
use bamboo_storage::metrics::{
    DurationMetrics, DurationMetricsSnapshot, SaveKind, SavePersistenceMetricsSnapshot,
    SaveStageDurations, SessionPersistenceMetrics, SessionPersistenceMetricsSnapshot,
    PERSISTENCE_METRIC_WINDOW,
};
use bamboo_storage::opening::{OpeningStep, StoreOpening};
use bamboo_storage::rebuild::{
    rebuild_index_entry_from_dir, rebuild_index_from_disk, rebuild_items, search_rebuild_item,
    FoundSession, MigrationStep, RootEntry, SidecarMigration, TreeEntry,
};
use bamboo_storage::search_queue::{
    after_attempt, publish_search_revision, AttemptNext, SearchIndexMutation, SearchIndexQueue,
};
use bamboo_storage::session::Session;
use bamboo_storage::store::SessionStoreV2;
use bamboo_storage::strmap::StrMap;
use bamboo_storage::text::{decimal, less, parse_u64, sort_texts, split, trim};
use bamboo_storage::time::Timestamp;

fn at(secs: i64) -> Timestamp {
    Timestamp { secs, nanos: 0 }
}

fn failure(message: &str) -> StorageError {
    StorageError::new(ErrorKind::System(5), message.to_string())
}

fn root(id: &str) -> Session {
    Session::new_root(id, "model", "Title", at(100))
}

#[test]
fn durations_report_bounded_percentiles() {
    let mut m = DurationMetrics::default();
    assert_eq!(m.snapshot(), DurationMetricsSnapshot::default());
    for n in 1..=100u128 {
        m.record(n);
    }
    let s = m.snapshot();
    assert_eq!(s.count, 100);
    assert_eq!(s.total_ms, 5050);
    assert_eq!(s.last_ms, 100);
    assert_eq!(s.max_ms, 100);
    assert_eq!(s.p50_ms, 51);
    assert_eq!(s.p95_ms, 96);
    for _ in 0..2000 {
        m.record(7);
    }
    assert_eq!(m.recent_ms.len(), PERSISTENCE_METRIC_WINDOW);
    let s = m.snapshot();
    assert_eq!(s.max_ms, 100);
    assert_eq!((s.p50_ms, s.p95_ms), (7, 7));
    m.record(u128::MAX);
    assert_eq!(m.snapshot().last_ms, u64::MAX);
    assert_eq!(m.snapshot().total_ms, u64::MAX);
}

#[test]
fn saves_are_measured_by_kind() {
    let mut m = SessionPersistenceMetrics::default();
    m.record_lock_wait(SaveKind::Full, 3);
    m.record_lock_hold(SaveKind::Runtime, 4);
    m.record_save(
        SaveKind::Full,
        10,
        SaveStageDurations {
            directory_preparation: 1,
            serialization: 2,
            filesystem_commit: 3,
            index_publication: 4,
            search_enqueue: 5,
        },
        77,
        8,
        9,
    );
    m.record_index_lock_wait(11);
    m.record_index_lock_hold(12);
    m.record_search_index(13);
    m.record_create_latency(14);
    let s = m.snapshot(2, 1);
    assert_eq!(s.full_save.lock_wait.last_ms, 3);
    assert_eq!(s.full_save.total.last_ms, 10);
    assert_eq!(s.full_save.search_enqueue.last_ms, 5);
    assert_eq!(s.full_save.last_serialized_bytes, 77);
    assert_eq!(s.full_save.last_message_count, 8);
    assert_eq!(s.full_save.last_index_entry_count, 9);
    assert_eq!(s.runtime_save.lock_hold.last_ms, 4);
    assert_eq!(s.runtime_save.total, DurationMetricsSnapshot::default());
    assert_eq!(s.index_lock_wait.last_ms, 11);
    assert_eq!(s.index_lock_hold.last_ms, 12);
    assert_eq!(s.search_index.last_ms, 13);
    assert_eq!(s.create_latency.last_ms, 14);
    assert_eq!((s.pending_search_jobs, s.active_search_jobs), (2, 1));
    m.with_save_mut(SaveKind::Runtime).last_message_count = 6;
    assert_eq!(m.snapshot(0, 0).runtime_save.last_message_count, 6);
    assert_eq!(SaveKind::Full.as_str(), "full");
    assert_eq!(SaveKind::Runtime.as_str(), "runtime");
    assert_eq!(
        SessionPersistenceMetrics::default().snapshot(0, 0),
        SessionPersistenceMetricsSnapshot::default()
    );
    assert_eq!(
        SavePersistenceMetricsSnapshot::default().last_serialized_bytes,
        0
    );
}

#[test]
fn the_store_reports_its_metrics() {
    let mut store = SessionStoreV2::new("/h".to_string(), SessionsIndex::empty(at(0)));
    for millis in [10, 20, 30, 40, 50] {
        store.record_session_create_latency(millis);
    }
    store.search_index_queue.enqueue_delete("a", "p".to_string());
    let s = store.persistence_metrics();
    assert_eq!(s.create_latency.count, 5);
    assert_eq!(s.create_latency.p50_ms, 30);
    assert_eq!(s.create_latency.p95_ms, 50);
    assert_eq!(s.create_latency.max_ms, 50);
    assert_eq!(s.pending_search_jobs, 1);
}

#[test]
fn changes_of_a_session_coalesce() {
    let mut q = SearchIndexQueue::new();
    assert!(q.is_idle());
    q.enqueue_upsert(&root("a"), "pa".to_string(), "1".to_string());
    q.enqueue_upsert(&root("b"), "pb".to_string(), "1".to_string());
    q.enqueue_delete("a", "pa".to_string());
    assert_eq!(q.pending_len(), 2);
    let first = q.take_next().unwrap();
    assert_eq!(first.mutation.session_id(), "a");
    assert!(matches!(first.mutation, SearchIndexMutation::Delete { .. }));
    assert!(!q.is_idle());
    let second = q.take_next().unwrap();
    assert_eq!(second.mutation.session_id(), "b");
    assert!(first.generation != second.generation);
    assert!(q.take_next().is_none());
    q.finish();
    q.finish();
    assert!(q.is_idle());
}

#[test]
fn the_last_change_of_each_session_waits() {
    let mut q = SearchIndexQueue::new();
    for (id, revision) in [("a", "1"), ("b", "2"), ("a", "3"), ("c", "4"), ("b", "5"), ("a", "6")] {
        q.enqueue_upsert(&root(id), id.to_string(), revision.to_string());
    }
    assert_eq!(q.pending_len(), 3);
    let mut served = vec![];
    while let Some(next) = q.take_next() {
        if let SearchIndexMutation::Upsert { session, expected_revision, .. } = next.mutation {
            served.push((session.id.clone(), expected_revision, next.generation));
        }
    }
    assert_eq!(
        served,
        vec![
            ("a".to_string(), "6".to_string(), 6),
            ("b".to_string(), "5".to_string(), 5),
            ("c".to_string(), "4".to_string(), 4),
        ]
    );
}

#[test]
fn numbers_rise() {
    let mut q = SearchIndexQueue::new();
    let mut numbers = vec![];
    for id in ["a", "b", "a", "a"] {
        numbers.push(q.enqueue_delete(id, id.to_string()));
    }
    assert_eq!(numbers, vec![1, 2, 3, 4]);
    assert_eq!(q.take_next().unwrap().generation, 4);
    assert_eq!(q.take_next().unwrap().generation, 2);
    assert!(q.take_next().is_none());
}

#[test]
fn records_add_up() {
    let mut m = DurationMetrics::default();
    let samples: Vec<u128> = (0..3000u128).map(|n| (n * 7919) % 4001).collect();
    for n in &samples {
        m.record(*n);
    }
    let s = m.snapshot();
    assert_eq!(s.count, 3000);
    assert_eq!(s.total_ms as u128, samples.iter().sum::<u128>());
    assert_eq!(s.last_ms as u128, samples[2999]);
    assert_eq!(s.max_ms as u128, *samples.iter().max().unwrap());
    let window: Vec<u64> = samples[3000 - PERSISTENCE_METRIC_WINDOW..]
        .iter()
        .map(|n| *n as u64)
        .collect();
    assert_eq!(m.recent_ms.iter().copied().collect::<Vec<u64>>(), window);
    assert!(s.p50_ms <= s.p95_ms && s.p95_ms <= s.max_ms && s.last_ms <= s.max_ms);
}

#[test]
fn revisions_are_fresh() {
    let (path, revision) = publish_search_revision("/h/sessions/a");
    assert_eq!(path, "/h/sessions/a/.search-index-revision");
    assert_eq!(revision.len(), 36);
    assert_ne!(publish_search_revision("/h/sessions/a").1, revision);
}

#[test]
fn search_attempts_back_off_and_end() {
    assert_eq!(after_attempt(1, true), AttemptNext::Done);
    assert!(matches!(after_attempt(1, false), AttemptNext::RetryAfter(_)));
    assert!(matches!(after_attempt(2, false), AttemptNext::RetryAfter(_)));
    assert_eq!(after_attempt(3, false), AttemptNext::GiveUp);
    assert_eq!(after_attempt(3, true), AttemptNext::Done);
}

fn directory(name: &str) -> TreeEntry {
    TreeEntry {
        name: Some(name.to_string()),
        is_directory: true,
    }
}

#[test]
fn a_rebuild_visits_roots_and_children() {
    let roots = vec![
        RootEntry {
            entry: directory("r"),
            children: vec![
                directory("c"),
                TreeEntry {
                    name: Some("file".to_string()),
                    is_directory: false,
                },
            ],
        },
        RootEntry {
            entry: TreeEntry {
                name: None,
                is_directory: true,
            },
            children: vec![],
        },
    ];
    let items: Vec<(String, String)> = rebuild_items(&roots)
        .into_iter()
        .map(|i| (i.session_id, i.rel_path))
        .collect();
    assert_eq!(
        items,
        vec![
            ("r".to_string(), "sessions/r".to_string()),
            ("c".to_string(), "sessions/r/children/c".to_string()),
        ]
    );
    assert_eq!(rebuild_index_from_disk(Ok(roots)).unwrap().len(), 2);
    let missing = StorageError::new(ErrorKind::NotFound, "no".to_string());
    assert!(rebuild_index_from_disk(Err(missing)).is_none());
    assert!(rebuild_index_from_disk(Err(failure("x"))).is_none());
}

#[test]
fn a_rebuild_lists_what_it_finds() {
    let mut index = SessionsIndex::empty(at(0));
    index.version = 0;
    index.rebuild_in_progress = true;
    let found = |id: &str, secs: i64, title: &str| {
        let mut s = root(id);
        s.updated_at = at(secs);
        s.title = title.to_string();
        Some(FoundSession {
            session: s,
            has_attachments: true,
            placement: None,
            project: None,
        })
    };
    assert!(rebuild_index_entry_from_dir(&mut index, "sessions/a".to_string(), found("a", 9, "new")));
    assert!(rebuild_index_entry_from_dir(&mut index, "sessions/b".to_string(), found("a", 5, "old")));
    assert!(!rebuild_index_entry_from_dir(&mut index, "sessions/c".to_string(), None));
    index.finish_rebuild();
    assert_eq!(index.version, SESSIONS_INDEX_VERSION);
    assert!(!index.rebuild_in_progress);
    let row = index.get_index_entry("a").unwrap();
    assert_eq!(row.title, "new");
    assert_eq!(row.rel_path, "sessions/b");
    assert!(row.has_attachments);
    assert_eq!(index.list_index_entries().len(), 1);
    assert_eq!(project_id_text(&root("a")), None);
}

#[test]
fn search_rebuilds_take_indexable_sessions() {
    assert!(search_rebuild_item(Ok(Some(root("a"))), true, true).ok().unwrap().is_some());
    assert!(search_rebuild_item(Ok(Some(root("a"))), false, true).ok().unwrap().is_none());
    assert!(search_rebuild_item(Ok(Some(root("a"))), true, false).ok().unwrap().is_none());
    assert!(search_rebuild_item(Ok(None), true, true).ok().unwrap().is_none());
    assert!(search_rebuild_item(Err(failure("x")), true, true).is_err());
}

#[test]
fn the_migration_marker_comes_last() {
    let m = SidecarMigration::migrate_runtime_sidecars(true, 3);
    assert_eq!(m.step, MigrationStep::Finished);
    assert_eq!(m.migrated, 0);
    let mut m = SidecarMigration::migrate_runtime_sidecars(false, 3);
    let mut steps = vec![];
    let wanted = [true, false, true];
    while m.step != MigrationStep::Finished {
        steps.push(m.step);
        m = match m.step {
            MigrationStep::Inspect => {
                let w = wanted[m.next];
                m.on_inspected(Ok(w))
            }
            _ => m.on_written(Ok(())),
        };
    }
    assert_eq!(m.migrated, 2);
    assert_eq!(steps.len(), 6);
    assert_eq!(steps[5], MigrationStep::WriteMarker);
    let m = SidecarMigration::migrate_runtime_sidecars(false, 1).on_inspected(Err(failure("x")));
    assert_eq!(m.step, MigrationStep::Finished);
    assert_eq!(m.failure.unwrap().message, "x");
}

#[test]
fn a_store_opens_recovered() {
    let mut o = StoreOpening::begin();
    let mut steps = vec![];
    while o.step != OpeningStep::Finished {
        steps.push(o.step);
        if o.step == OpeningStep::ReadIndex {
            let opened = open_index(IndexFile::Corrupt("bad byte".to_string()), at(0)).ok().unwrap();
            o = o.index_opens(&opened).step(Ok(()));
        } else {
            o = o.step(Ok(()));
        }
    }
    assert!(o.failure.is_none());
    let place = |s: OpeningStep| steps.iter().position(|t| *t == s).unwrap();
    assert!(place(OpeningStep::RecoverTasks) < place(OpeningStep::Rebuild));
    assert!(place(OpeningStep::RecoverCopies) < place(OpeningStep::Rebuild));
    assert!(place(OpeningStep::Rebuild) < place(OpeningStep::ReconcileRevocations));
    assert!(place(OpeningStep::BackUpIndex) < place(OpeningStep::PublishIndex));
    assert!(place(OpeningStep::PublishIndex) < place(OpeningStep::ReleaseIndex));
    let mut o = StoreOpening::begin();
    let mut steps = vec![];
    while o.step != OpeningStep::Finished {
        steps.push(o.step);
        if o.step == OpeningStep::ReadIndex {
            let current = IndexFile::Parsed(SessionsIndex::empty(at(0)));
            let opened = open_index(current, at(0)).ok().unwrap();
            o = o.index_opens(&opened).step(Ok(()));
        } else {
            o = o.step(Ok(()));
        }
    }
    assert!(!steps.contains(&OpeningStep::Rebuild));
    assert_eq!(steps.last(), Some(&OpeningStep::ReconcileRevocations));
    assert!(!steps.contains(&OpeningStep::PublishIndex));
    let o = StoreOpening::begin().step(Err(failure("x")));
    assert_eq!(o.step, OpeningStep::Finished);
    assert_eq!(o.failure.unwrap().message, "x");
}

#[test]
fn texts_are_compared_and_parsed() {
    assert!(less("a", "b") && !less("b", "a") && !less("a", "a"));
    assert!(less("B", "a"));
    assert!(less("a", "aa"));
    assert_eq!(
        sort_texts(vec!["b".to_string(), "a".to_string(), "c".to_string()]),
        vec!["a", "b", "c"]
    );
    assert_eq!(parse_u64("18446744073709551615"), Some(u64::MAX));
    assert_eq!(parse_u64("18446744073709551616"), None);
    assert_eq!(parse_u64("+7"), Some(7));
    assert_eq!(parse_u64(""), None);
    assert_eq!(parse_u64(" 7"), None);
    assert_eq!(decimal(0), "0");
    assert_eq!(decimal(1204), "1204");
    assert_eq!(split("a/b/", '/'), vec!["a", "b", ""]);
    assert_eq!(trim(" \t\u{a0}x\u{3000}\n"), "x");
}

#[test]
fn maps_keep_one_value_per_key() {
    let mut m: StrMap<u32> = StrMap::new();
    m.insert("a".to_string(), 1);
    m.insert("b".to_string(), 2);
    m.insert("a".to_string(), 3);
    assert_eq!(m.get("a"), Some(&3));
    assert_eq!(m.len(), 2);
    assert_eq!(m.remove("a"), Some(3));
    assert_eq!(m.remove("a"), None);
    assert!(!m.contains_key("a"));
    assert!(m.contains_key("b"));
}

#[test]
fn moments_are_ordered() {
    let a = at(1);
    let b = Timestamp { secs: 1, nanos: 1 };
    assert!(a.is_before(b) && !b.is_before(a) && !a.is_before(a));
    assert_eq!(a.latest(b), b);
    assert_eq!(b.latest(a), b);
}
