use super_duper::stats::epoch_seconds;
use super_duper::scan_progress::{
    totals_message, HashProcScanFilesStatusMessage, ProcessStats, ScanAddDupeStatusMessage, ScanAddRawStatusMessage,
    StatusMessage as ScanStatus,
};
use super_duper::stats::{
    elapsed_clock_text, humanize_name, Elapsed, FileProcStats, FileProcStatsPrintItem, FileProcStatsValueType, StatsTimer,
};
use super_duper::status::{
    can_show_status, status_text, ProcessStartStatusMessage, update_stats, FileProcStatusType, HashFinishGenerateFileHashStatusMessage, HashGenerateType, HashProcStatusMessage,
    ScanAddInputFileStatusMessage, ScanAddSizeDupeStatusMessage, ScanStartStatusMessage, StatusMessage,
};

#[test]
fn spans_read_as_hours_minutes_seconds_millis() {
    assert_eq!(elapsed_clock_text(Elapsed { secs: 0, nanos: 0 }), "00:00:00.000");
    assert_eq!(elapsed_clock_text(Elapsed { secs: 3_723, nanos: 45_000_000 }), "01:02:03.045");
    assert_eq!(elapsed_clock_text(Elapsed { secs: 360_000, nanos: 999_999_999 }), "100:00:00.999");
    let sum = Elapsed { secs: 1, nanos: 600_000_000 }.add(Elapsed { secs: 2, nanos: 500_000_000 });
    assert_eq!(sum, Elapsed { secs: 4, nanos: 100_000_000 });
}

#[test]
fn timers_measure_from_start_to_finish() {
    let mut timer = StatsTimer::new();
    assert_eq!(timer.get_duration(), Elapsed::zero());
    assert_eq!(timer.get_duration_string(), "00:00:00.000");
    timer.finish();
    assert!(timer.get_duration().nanos < 1_000_000_000);
    assert!(timer.get_duration().secs < 60);
}

#[test]
fn statistic_keys_become_display_names() {
    assert_eq!(humanize_name("scan_file_count"), "Scan File Count");
    assert_eq!(humanize_name("a__b"), "A  B");
    assert_eq!(humanize_name(""), "");
    assert_eq!(humanize_name("ß_x"), "SS X");
}

#[test]
fn print_items_format_their_values() {
    let count = FileProcStatsPrintItem::new("scan_file_count", None, FileProcStatsValueType::Count(1_234_567));
    assert_eq!(count.human_name, "Scan File Count");
    assert_eq!(count.human_value, "1,234,567");
    assert_eq!(count.raw_string_value, "1234567");
    let size = FileProcStatsPrintItem::new("scan_file_size", Some("Bytes"), FileProcStatsValueType::FileSize(1_500));
    assert_eq!(size.human_name, "Bytes");
    assert_eq!(size.human_value, "1.46 KiB");
    assert_eq!(size.raw_string_value, "1500");
    let span = FileProcStatsPrintItem::new("hash_duration", None, FileProcStatsValueType::Duration(Elapsed { secs: 1, nanos: 0 }));
    assert_eq!(span.human_value, "1 second");
    assert_eq!(span.raw_string_value, "00:00:01.000");
    let time = FileProcStatsPrintItem::new("run_start_time", None, FileProcStatsValueType::SystemTime(1_700_000_000));
    assert_eq!(time.human_value, "2023-11-14 22:13:20");
    assert_eq!(time.raw_string_value, "2023-11-14 22:13:20");
    let paths = FileProcStatsPrintItem::new(
        "scan_input_paths",
        None,
        FileProcStatsValueType::StringVec(vec!["/a".to_owned(), "/b".to_owned()]),
    );
    assert_eq!(paths.human_value, "/a, /b");
}

#[test]
fn summary_rows_follow_the_statistics() {
    let mut stats = FileProcStats::default();
    assert!(stats.try_to_print_items().is_none());
    stats.run_start_time = Some(0);
    stats.scan_file_count = 3;
    stats.scan_input_paths = vec!["/data".to_owned()];
    let items = stats.to_print_items();
    assert_eq!(items.len(), 25);
    assert_eq!(items[0].name, "run_start_time");
    assert_eq!(items[0].human_value, "1970-01-01 00:00:00");
    assert_eq!(items[1].raw_string_value, "00:00:00.000");
    assert_eq!(items[3].human_value, "/data");
    assert_eq!(items[4].raw_string_value, "3");
    assert_eq!(items[24].name, "cache_map_to_dupe_vec_count");
    assert_eq!(stats.try_to_print_items().unwrap().len(), 25);
}

#[test]
fn status_messages_advance_the_counters() {
    let mut stats = FileProcStats::default();
    update_stats(StatusMessage::ScanStart(ScanStartStatusMessage { input_paths: vec!["/in".to_owned()] }), &mut stats);
    assert!(stats.scan_start.is_some());
    assert_eq!(stats.scan_input_paths, vec!["/in".to_owned()]);
    update_stats(
        StatusMessage::ScanAddInputFile(ScanAddInputFileStatusMessage { file_path: "/in/a".to_owned(), file_size: 10 }),
        &mut stats,
    );
    update_stats(StatusMessage::ScanAddRetainedFile(ScanAddSizeDupeStatusMessage { count: 3, file_size: 7 }), &mut stats);
    assert_eq!((stats.scan_file_count, stats.scan_file_size), (1, 10));
    assert_eq!((stats.scan_size_dupe_file_count, stats.scan_size_dupe_file_size), (3, 21));
    update_stats(StatusMessage::ScanFinish, &mut stats);
    assert!(stats.scan_finish.is_some());
    update_stats(
        StatusMessage::HashProc(HashProcStatusMessage {
            scan_file_count: 2,
            cache_hit_full_count: 1,
            cache_hit_partial_count: 0,
            file_size: 5,
            confirmed_dupe_count: 2,
        }),
        &mut stats,
    );
    assert_eq!((stats.hash_scan_file_size, stats.hash_confirmed_dupe_size), (10, 10));
    assert_eq!((stats.hash_confirmed_dupe_distinct_count, stats.hash_confirmed_dupe_distinct_size), (1, 5));
    for _ in 0..2 {
        update_stats(
            StatusMessage::HashFinishGenerateFileHash(HashFinishGenerateFileHashStatusMessage {
                canonical_path: "/in/a".to_owned(),
                hash_type: HashGenerateType::Full,
                file_size: 4,
                duration: Elapsed { secs: 0, nanos: 600_000_000 },
            }),
            &mut stats,
        );
    }
    assert_eq!(stats.hash_gen_full_count, 2);
    assert_eq!(stats.hash_gen_full_duration, Elapsed { secs: 1, nanos: 200_000_000 });
    assert_eq!(stats.hash_gen_full_file_size, 8);
    assert_eq!(FileProcStatusType::CacheToDupeBar.to_index(), 4);
}

#[test]
fn first_scanner_totals() {
    let mut totals = ProcessStats::default();
    totals.record(&ScanStatus::ScanAddRaw(ScanAddRawStatusMessage { file_path: "/x".to_owned(), file_size: 9 }));
    totals.record(&ScanStatus::ScanAddDupe(ScanAddDupeStatusMessage { count: 2, file_size: 9 }));
    totals.record(&ScanStatus::HashProcScanFiles(HashProcScanFilesStatusMessage { count: 2, file_size: 9 }));
    totals.record(&ScanStatus::ScanEnd);
    assert_eq!(
        totals_message(&totals),
        "Scanned Files: 1, Scanned File Size: 9, Scan Dupe Count: 2, Scan Dupe Size: 18, Hashed Files: 2, Hashed File Size: 18"
    );
}

#[test]
fn wall_clock_readings_become_whole_epoch_seconds() {
    assert_eq!(epoch_seconds(Ok(Elapsed { secs: 1_700_000_000, nanos: 999 })), 1_700_000_000);
    assert_eq!(epoch_seconds(Err(Elapsed { secs: 5, nanos: 0 })), -5);
    assert_eq!(epoch_seconds(Err(Elapsed { secs: 5, nanos: 1 })), -6);
    assert_eq!(epoch_seconds(Ok(Elapsed { secs: u64::MAX, nanos: 0 })), i64::MAX);
    assert_eq!(epoch_seconds(Err(Elapsed { secs: u64::MAX, nanos: 0 })), i64::MIN);
}

#[test]
fn status_lines_read_the_recorded_counters() {
    let mut stats = FileProcStats::default();
    update_stats(StatusMessage::ScanStart(ScanStartStatusMessage { input_paths: vec!["/in".to_owned()] }), &mut stats);
    let add = StatusMessage::ScanAddInputFile(ScanAddInputFileStatusMessage { file_path: "/in/a".to_owned(), file_size: 2048 });
    update_stats(add.clone(), &mut stats);
    assert!(can_show_status(&stats));
    assert_eq!(status_text(&add, &stats).unwrap(), "1 files (2.00 KiB) (/in/a)");
    let start = StatusMessage::ProcessStart(ProcessStartStatusMessage { input_paths: vec!["/a".to_owned(), "/b".to_owned()] });
    assert_eq!(status_text(&start, &stats).unwrap(), "Processing: /a, /b");
    let generated = StatusMessage::HashFinishGenerateFileHash(HashFinishGenerateFileHashStatusMessage {
        canonical_path: "/in/a".to_owned(),
        hash_type: HashGenerateType::Partial,
        file_size: 2048,
        duration: Elapsed { secs: 0, nanos: 5 },
    });
    assert_eq!(status_text(&generated, &stats).unwrap(), "Generated Partial hash for /in/a");
    assert!(status_text(&StatusMessage::HashStart, &stats).is_none());
}

#[test]
fn finished_timers_read_in_words() {
    let timer = StatsTimer::new();
    assert_eq!(timer.get_duration_human(), indicatif::HumanDuration(std::time::Duration::new(0, 0)).to_string());
    let mut timer = StatsTimer::new();
    timer.finish();
    let d = timer.get_duration();
    let expected = indicatif::HumanDuration(std::time::Duration::new(d.secs, d.nanos)).to_string();
    assert_eq!(timer.get_duration_human(), expected);
    assert!(timer.get_duration_human().ends_with("seconds") || timer.get_duration_human().ends_with("second"));
}

#[test]
fn stage_spans_are_the_clock_span_between_their_instants() {
    let a = std::time::Instant::now();
    let b = a + std::time::Duration::new(3, 250_000_000);
    assert_eq!(FileProcStats::get_elapsed(&Some(a), &Some(b)), Elapsed { secs: 3, nanos: 250_000_000 });
    assert_eq!(FileProcStats::get_elapsed(&Some(b), &Some(a)), Elapsed::zero());
    assert_eq!(FileProcStats::get_elapsed(&None, &Some(b)), Elapsed::zero());
    assert_eq!(FileProcStats::get_elapsed(&Some(a), &None), Elapsed::zero());
}

#[test]
fn a_second_finish_keeps_the_first_start() {
    let mut timer = StatsTimer::new();
    timer.finish();
    let first = timer.get_duration();
    let waited = std::time::Instant::now();
    while waited.elapsed() < std::time::Duration::from_millis(20) {}
    timer.finish();
    let second = timer.get_duration();
    let first_ns = first.secs as u128 * 1_000_000_000 + first.nanos as u128;
    let second_ns = second.secs as u128 * 1_000_000_000 + second.nanos as u128;
    assert!(second_ns >= first_ns + 20_000_000);
}
