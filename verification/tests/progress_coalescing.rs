use super_duper::progress::Coalesced;
use super_duper::reporter::{progress_event_fields, LegacyProgressProjection};
use super_duper::progress::{LatestValueCoalescer, PROGRESS_EVENT_INTERVAL_NANOS};

#[test]
fn thousand_updates_are_latest_wins_and_bounded_in_every_half_open_second() {
    let mut coalescer = LatestValueCoalescer::default();
    let mut emitted = Vec::new();
    for update in 0..1_000_u64 {
        if let Some(value) = coalescer.offer(update * 1_000_000, update, false) {
            emitted.push(value);
        }
    }
    emitted.push(coalescer.take_due(1_000_000_000).unwrap());

    assert_eq!(
        emitted.iter().map(|value| value.value).collect::<Vec<_>>(),
        vec![0, 100, 200, 300, 400, 500, 600, 700, 800, 900, 999]
    );
    assert!(emitted.windows(2).all(|pair| pair[0].sequence < pair[1].sequence
        && pair[1].emitted_at_nanos - pair[0].emitted_at_nanos >= PROGRESS_EVENT_INTERVAL_NANOS));
    for window_start_millis in 0..=1_000_u64 {
        let start = window_start_millis * 1_000_000;
        let end = start + 1_000_000_000;
        assert!(
            emitted
                .iter()
                .filter(|value| value.emitted_at_nanos >= start && value.emitted_at_nanos < end)
                .count()
                <= 10
        );
    }
}

#[test]
fn phase_churn_waits_for_next_legal_slot_and_cancelling_is_sticky() {
    let mut coalescer = LatestValueCoalescer::default();
    assert_eq!(coalescer.offer(0, "discovering", false).unwrap().sequence, 1);
    assert!(coalescer.offer(10_000_000, "candidate_screening", false).is_none());
    assert!(coalescer.offer(20_000_000, "persisting", true).is_none());
    assert!(coalescer.offer(99_999_999, "finalizing", false).is_none());
    let emission = coalescer.take_due(100_000_000).unwrap();
    assert_eq!(emission.sequence, 2);
    assert_eq!(emission.value, "finalizing");
    assert!(emission.cancelling);
}

#[test]
fn terminal_discards_pending_and_suppresses_late_progress() {
    let mut coalescer = LatestValueCoalescer::default();
    assert!(coalescer.offer(0, 1_u64, false).is_some());
    assert!(coalescer.offer(1, 2, false).is_none());
    coalescer.terminate();
    assert!(coalescer.take_due(PROGRESS_EVENT_INTERVAL_NANOS).is_none());
    assert!(coalescer.offer(PROGRESS_EVENT_INTERVAL_NANOS, 3, false).is_none());
}

#[test]
fn next_due_follows_the_last_emission() {
    let mut coalescer = LatestValueCoalescer::default();
    assert_eq!(coalescer.next_due_nanos(), None);
    coalescer.submit(7_u32, false);
    assert_eq!(coalescer.next_due_nanos(), Some(0));
    let first = coalescer.take_due(5).unwrap();
    assert_eq!((first.sequence, first.emitted_at_nanos, first.value), (1, 5, 7));
    assert_eq!(coalescer.next_due_nanos(), None);
    coalescer.submit(8, false);
    assert_eq!(coalescer.next_due_nanos(), Some(5 + PROGRESS_EVENT_INTERVAL_NANOS));
    assert!(coalescer.take_due(5 + PROGRESS_EVENT_INTERVAL_NANOS - 1).is_none());
    assert_eq!(coalescer.take_due(5 + PROGRESS_EVENT_INTERVAL_NANOS).unwrap().sequence, 2);
}

#[test]
fn latched_cancelling_marks_every_later_emission() {
    let mut coalescer = LatestValueCoalescer::default();
    coalescer.latch_cancelling(true);
    coalescer.latch_cancelling(false);
    let first = coalescer.offer(0, "a", false).unwrap();
    assert!(first.cancelling);
    let second = coalescer.offer(PROGRESS_EVENT_INTERVAL_NANOS, "b", false).unwrap();
    assert!(second.cancelling);
}

#[test]
fn terminal_coalescer_stays_terminal_and_takes_nothing() {
    let mut coalescer: LatestValueCoalescer<u8> = LatestValueCoalescer::default();
    assert!(!coalescer.is_terminal());
    coalescer.terminate();
    assert!(coalescer.is_terminal());
    coalescer.submit(1, true);
    assert_eq!(coalescer.next_due_nanos(), None);
    assert!(coalescer.take_due(u64::MAX).is_none());
    assert!(coalescer.is_terminal());
}

#[test]
fn latest_submission_wins_between_emissions() {
    let mut coalescer = LatestValueCoalescer::default();
    coalescer.submit(1_u8, false);
    coalescer.submit(2, false);
    assert_eq!(coalescer.take_due(0).unwrap().value, 2);
}

#[test]
fn emitted_progress_becomes_event_fields() {
    let projection = LegacyProgressProjection {
        phase: "hashing".to_owned(),
        files_discovered: 12,
        bytes_discovered: 18_446_744_073_709_551_615,
        files_hashed: 4,
        warning_count: 0,
        current_path: Some(String::new()),
    };
    let emitted = Coalesced { sequence: 3, emitted_at_nanos: 9, cancelling: false, value: projection.clone() };
    let fields = progress_event_fields(77, &emitted);
    assert_eq!((fields.run_id, fields.sequence), (77, 3));
    assert_eq!(fields.status, "running");
    assert_eq!(fields.phase, "hashing");
    assert_eq!(fields.bytes_discovered, "18446744073709551615");
    assert_eq!((fields.files_discovered, fields.files_hashed, fields.warning_count), (12, 4, 0));
    assert_eq!(fields.current_path, None);
    assert_eq!(fields.message, None);
    let warned = LegacyProgressProjection { warning_count: 2, current_path: Some("/data/a".to_owned()), ..projection };
    let emitted = Coalesced { sequence: 4, emitted_at_nanos: 10, cancelling: true, value: warned };
    let fields = progress_event_fields(77, &emitted);
    assert_eq!(fields.status, "cancelling");
    assert_eq!(fields.current_path.as_deref(), Some("/data/a"));
    assert_eq!(
        fields.message.as_deref(),
        Some("The scan encountered recoverable warnings; see local diagnostics.")
    );
}
