use super_duper::cache::{
    build_full_hash, build_partial_hash, hash_data, is_fully_cached, size_map_stats, CacheFile, CacheKeyError, FileTime,
};
use super_duper::config::AppConfig;
use super_duper::path_parts::{extract_path_components, get_path_without_drive_letter, try_extract_path_components};
use super_duper::reporter::{database_write_due, legacy_phase, ProgressState, TelemetryPhase, UpdateStep};
use super_duper::stats::Elapsed;

fn cache_file(secs: i64, full_hash: Option<u64>) -> CacheFile {
    CacheFile {
        canonical_path: "/data/a.txt".to_owned(),
        file_size: 3,
        last_modified: FileTime { secs, nanos: 5 },
        full_hash,
        partial_hash: None,
        path: "a.txt".to_owned(),
    }
}

#[test]
fn cache_keys_join_path_and_modification_second() {
    assert_eq!(cache_file(1_700_000_000, None).get_cache_key().unwrap(), b"/data/a.txt|1700000000".to_vec());
    assert_eq!(cache_file(0, None).get_cache_key().unwrap(), b"/data/a.txt|0".to_vec());
    assert_eq!(cache_file(-1, None).get_cache_key().unwrap_err(), CacheKeyError::ModifiedBeforeEpoch);
}

#[test]
fn full_caching_needs_every_full_hash() {
    assert!(is_fully_cached(&vec![]));
    assert!(is_fully_cached(&vec![cache_file(1, Some(1)), cache_file(2, Some(2))]));
    assert!(!is_fully_cached(&vec![cache_file(1, Some(1)), cache_file(2, None)]));
}

#[test]
fn content_hashes_are_xxhash64_with_seed_zero() {
    assert_eq!(hash_data(b""), 0xef46db3751d8e999);
    assert_eq!(hash_data(b"abc"), 0x44bc2cf5ad770999);
    assert_eq!(build_full_hash(b"abc"), hash_data(b"abc"));
    let long = vec![7u8; 3000];
    assert_eq!(build_partial_hash(&long), hash_data(&long[..1024]));
    assert_eq!(build_partial_hash(b"abc"), hash_data(b"abc"));
}

#[test]
fn size_map_totals() {
    let stats = size_map_stats(&vec![(10, 2), (7, 3)]);
    assert_eq!((stats.key_count, stats.total_distinct_size, stats.total_file_count, stats.total_size), (2, 17, 5, 41));
}

#[test]
fn configured_roots_are_reduced() {
    let config = AppConfig {
        root_paths: vec!["/a/b".to_owned(), "/a".to_owned()],
        ignore_patterns: vec!["*.tmp".to_owned()],
        spinner_key: Some("dots".to_owned()),
    };
    let config = AppConfig::sanitize_config(config);
    assert_eq!(config.root_paths, vec!["/a".to_owned()]);
    assert_eq!(config.ignore_patterns, vec!["*.tmp".to_owned()]);
}

#[test]
fn paths_are_taken_apart() {
    let parts = extract_path_components("/home/user/photo.tar.gz");
    assert_eq!(parts.drive_letter, None);
    assert_eq!(parts.path_without_drive, "/home/user/photo.tar.gz");
    assert_eq!(parts.base_filename, "photo.tar.gz");
    assert_eq!(parts.extension.as_deref(), Some("gz"));
    assert_eq!(parts.parent_dir, "/home/user");
    let parts = extract_path_components("notes");
    assert_eq!(parts.parent_dir, "");
    assert_eq!(parts.extension, None);
    assert!(try_extract_path_components("/").is_none());
}

#[test]
fn telemetry_phases_map_to_first_version_names() {
    assert_eq!(legacy_phase(TelemetryPhase::CandidateScreening), "hashing");
    assert_eq!(legacy_phase(TelemetryPhase::FullHashing), "hashing");
    assert_eq!(legacy_phase(TelemetryPhase::Overall), "discovering");
    assert_eq!(legacy_phase(TelemetryPhase::AnalyzingFolders), "analyzing_folders");
}

#[test]
fn progress_counters_only_grow_and_writes_are_throttled() {
    let mut progress = ProgressState::new();
    progress.observe_discovery(10, 100, 1);
    progress.observe_discovery(5, 200, 0);
    assert_eq!((progress.files_discovered, progress.bytes_discovered, progress.warning_count), (10, 200, 1));
    let (projection, pending) = progress.observe_snapshot(TelemetryPhase::FullHashing, 20, 4, 150, 3, 2);
    assert_eq!(projection.phase, "hashing");
    assert_eq!((projection.files_discovered, projection.bytes_discovered, projection.files_hashed), (16, 200, 3));
    assert!(pending);
    let now = std::time::Instant::now();
    match progress.begin_update(None, Some("/data/x"), false, now) {
        UpdateStep::Write(record) => assert_eq!(record.warning_count, 2),
        other => panic!("unexpected {other:?}"),
    }
    assert_eq!(progress.current_path.as_deref(), Some("/data/x"));
    match progress.begin_update(Some("persisting"), Some(""), false, now) {
        UpdateStep::Skip { caught_up } => assert!(!caught_up),
        other => panic!("unexpected {other:?}"),
    }
    assert_eq!(progress.phase, "persisting");
    assert_eq!(progress.current_path.as_deref(), Some("/data/x"));
    assert!(matches!(progress.begin_update(None, None, true, now), UpdateStep::Write(_)));
    progress.record_durable(2);
    progress.record_durable(1);
    assert_eq!(progress.durable_warning_count, 2);
    progress.reload(-1, 50, 7, 4);
    assert_eq!((progress.files_discovered, progress.bytes_discovered, progress.files_hashed), (0, 50, 7));
    assert_eq!((progress.durable_warning_count, progress.phase_warning_base), (4, 4));
    progress.observe_hash(9, 3);
    assert_eq!((progress.files_hashed, progress.warning_count), (9, 7));
}

#[test]
fn paths_without_a_drive_keep_their_other_components() {
    assert_eq!(get_path_without_drive_letter("/home/./user//photo.jpg"), "/home/user/photo.jpg");
    assert_eq!(get_path_without_drive_letter("relative/dir/"), "relative/dir");
    assert_eq!(get_path_without_drive_letter(""), "");
}

#[test]
fn database_writes_wait_for_the_interval_and_publishing_waits_for_durability() {
    assert!(database_write_due(true, Some(Elapsed { secs: 0, nanos: 1 })));
    assert!(database_write_due(false, None));
    assert!(!database_write_due(false, Some(Elapsed { secs: 0, nanos: 499_999_999 })));
    assert!(database_write_due(false, Some(Elapsed { secs: 0, nanos: 500_000_000 })));
    assert!(database_write_due(false, Some(Elapsed { secs: 1, nanos: 0 })));
    let mut progress = ProgressState::new();
    progress.observe_discovery(1, 1, 3);
    let now = std::time::Instant::now();
    let step = progress.apply_update(None, None, false, None, now);
    assert!(matches!(step, UpdateStep::Write(_)));
    assert!(!progress.finish_update(&step, false));
    assert_eq!(progress.durable_warning_count, 0);
    assert!(progress.finish_update(&step, true));
    assert_eq!(progress.durable_warning_count, 3);
    let step = progress.apply_update(None, None, false, Some(Elapsed { secs: 0, nanos: 10 }), now);
    assert!(matches!(step, UpdateStep::Skip { caught_up: true }));
    assert!(progress.finish_update(&step, false));
}
