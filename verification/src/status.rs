//! The status messages that the scanner's stages send while they run, and
//! how each one advances the run statistics.
use vstd::prelude::*;
use crate::stats::{
    can_add, elapsed_wf, group_thousands, human_bytes, human_bytes_text, human_count, human_duration, human_duration_text,
    instant_now, join_strings, join_with, timer_finish, total_nanos, unix_time_now, Elapsed, FileProcStats, StatsTimer,
};
use crate::cursor::push_str;
use crate::text::{decimal_nat, string_of};
use crate::validate::option_view;

verus! {

#[derive(Debug, Clone)]
pub struct ProcessStartStatusMessage {
    pub input_paths: Vec<String>,
}

#[derive(Debug, Clone)]
pub struct ScanStartStatusMessage {
    pub input_paths: Vec<String>,
}

#[derive(Debug, Clone)]
pub struct ScanAddInputFileStatusMessage {
    pub file_path: String,
    pub file_size: u64,
}

#[derive(Debug, Clone)]
pub struct ScanAddSizeDupeStatusMessage {
    pub count: usize,
    pub file_size: u64,
}

#[derive(Debug, Clone)]
pub struct HashProcStatusMessage {
    pub scan_file_count: usize,
    pub cache_hit_full_count: usize,
    pub cache_hit_partial_count: usize,
    pub file_size: u64,
    pub confirmed_dupe_count: usize,
}

#[derive(Clone, Copy, Debug, PartialEq, Eq, Structural)]
pub enum HashGenerateType {
    Partial,
    Full,
}

#[derive(Debug, Clone)]
pub struct HashStartGenerateFileHashStatusMessage {
    pub canonical_path: String,
    pub hash_type: HashGenerateType,
}

#[derive(Debug, Clone)]
pub struct HashFinishGenerateFileHashStatusMessage {
    pub canonical_path: String,
    pub hash_type: HashGenerateType,
    pub file_size: u64,
    pub duration: Elapsed,
}

#[derive(Debug, Clone)]
pub struct CacheToDupeProcStatusMessage {
    pub count: usize,
}

#[derive(Debug, Clone)]
pub struct DbDupeFileInsertProcStatusMessage {
    pub rows_inserted: usize,
}

/// A message from one of the scanner's stages.
#[derive(Debug, Clone)]
pub enum StatusMessage {
    ProcessStart(ProcessStartStatusMessage),
    ScanStart(ScanStartStatusMessage),
    ScanAddInputFile(ScanAddInputFileStatusMessage),
    ScanAddRetainedFile(ScanAddSizeDupeStatusMessage),
    ScanFinish,
    HashStart,
    HashProc(HashProcStatusMessage),
    HashStartGenerateFileHash(HashStartGenerateFileHashStatusMessage),
    HashFinishGenerateFileHash(HashFinishGenerateFileHashStatusMessage),
    HashFinish,
    CacheToDupeStart,
    CacheToDupeProc(CacheToDupeProcStatusMessage),
    CacheToDupeFinish,
    ProcessFinish,
}

/// A timer that has just been started.
pub open spec fn fresh_timer(t: StatsTimer) -> bool {
    t@.started() && !t@.finished() && t@.duration == Elapsed::zero_spec()
}

/// `after` is `before` stopped: same start, a finish, and the span from the
/// start to that finish.
pub open spec fn finished_timer(before: StatsTimer, after: StatsTimer) -> bool {
    timer_finish(before@, after@)
}

/// A message can be recorded: no counter overflows, and a stage that
/// finishes has a started timer.
pub open spec fn can_record(s: FileProcStats, m: StatusMessage) -> bool {
    match m {
        StatusMessage::ScanAddInputFile(msg) => s.scan_file_count + 1 <= usize::MAX && s.scan_file_size + msg.file_size
            <= u64::MAX,
        StatusMessage::ScanAddRetainedFile(msg) => s.scan_size_dupe_file_count + msg.count <= usize::MAX
            && msg.count * msg.file_size <= u64::MAX && s.scan_size_dupe_file_size + msg.count * msg.file_size
            <= u64::MAX,
        StatusMessage::ScanFinish => s.scan_timer@.started(),
        StatusMessage::HashProc(msg) => {
            &&& s.hash_scan_file_count + msg.scan_file_count <= usize::MAX
            &&& msg.scan_file_count * msg.file_size <= u64::MAX
            &&& s.hash_scan_file_size + msg.scan_file_count * msg.file_size <= u64::MAX
            &&& s.hash_cache_hit_full_count + msg.cache_hit_full_count <= usize::MAX
            &&& s.hash_cache_hit_partial_count + msg.cache_hit_partial_count <= usize::MAX
            &&& s.hash_confirmed_dupe_count + msg.confirmed_dupe_count <= usize::MAX
            &&& msg.confirmed_dupe_count * msg.file_size <= u64::MAX
            &&& s.hash_confirmed_dupe_size + msg.confirmed_dupe_count * msg.file_size <= u64::MAX
            &&& msg.confirmed_dupe_count > 0 ==> s.hash_confirmed_dupe_distinct_count + 1 <= usize::MAX
            &&& msg.confirmed_dupe_count > 0 ==> s.hash_confirmed_dupe_distinct_size + msg.file_size <= u64::MAX
        },
        StatusMessage::HashFinishGenerateFileHash(msg) => {
            &&& elapsed_wf(msg.duration)
            &&& match msg.hash_type {
                HashGenerateType::Full => {
                    &&& s.hash_gen_full_count + 1 <= usize::MAX
                    &&& elapsed_wf(s.hash_gen_full_duration)
                    &&& can_add(s.hash_gen_full_duration, msg.duration)
                    &&& s.hash_gen_full_file_size + msg.file_size <= u64::MAX
                },
                HashGenerateType::Partial => {
                    &&& s.hash_gen_partial_count + 1 <= usize::MAX
                    &&& elapsed_wf(s.hash_gen_partial_duration)
                    &&& can_add(s.hash_gen_partial_duration, msg.duration)
                    &&& s.hash_gen_partial_file_size + msg.file_size <= u64::MAX
                },
            }
        },
        StatusMessage::HashFinish => s.hash_timer@.started(),
        StatusMessage::CacheToDupeProc(msg) => s.cache_map_to_dupe_vec_count + msg.count <= usize::MAX,
        StatusMessage::ProcessFinish => s.process_timer@.started(),
        _ => true,
    }
}

/// What recording `m` makes of statistics `s`; `f` names the result, so
/// that the clock readings the message takes can stand in it.
pub open spec fn recorded(s: FileProcStats, m: StatusMessage, f: FileProcStats) -> bool {
    match m {
        StatusMessage::ProcessStart(_) => {
            &&& f == (FileProcStats {
                run_start_time: f.run_start_time,
                process_start: f.process_start,
                process_timer: f.process_timer,
                ..s
            })
            &&& f.run_start_time is Some
            &&& f.process_start is Some
            &&& fresh_timer(f.process_timer)
        },
        StatusMessage::ScanStart(msg) => {
            &&& f == (FileProcStats {
                scan_start: f.scan_start,
                scan_timer: f.scan_timer,
                scan_input_paths: msg.input_paths,
                ..s
            })
            &&& f.scan_start is Some
            &&& fresh_timer(f.scan_timer)
        },
        StatusMessage::ScanAddInputFile(msg) => f == (FileProcStats {
            scan_file_count: (s.scan_file_count + 1) as usize,
            scan_file_size: (s.scan_file_size + msg.file_size) as u64,
            ..s
        }),
        StatusMessage::ScanAddRetainedFile(msg) => f == (FileProcStats {
            scan_size_dupe_file_count: (s.scan_size_dupe_file_count + msg.count) as usize,
            scan_size_dupe_file_size: (s.scan_size_dupe_file_size + msg.count * msg.file_size) as u64,
            ..s
        }),
        StatusMessage::ScanFinish => {
            &&& f == (FileProcStats { scan_finish: f.scan_finish, scan_timer: f.scan_timer, ..s })
            &&& f.scan_finish is Some
            &&& finished_timer(s.scan_timer, f.scan_timer)
        },
        StatusMessage::HashStart => {
            &&& f == (FileProcStats { hash_start: f.hash_start, hash_timer: f.hash_timer, ..s })
            &&& f.hash_start is Some
            &&& fresh_timer(f.hash_timer)
        },
        StatusMessage::HashProc(msg) => f == (FileProcStats {
            hash_scan_file_count: (s.hash_scan_file_count + msg.scan_file_count) as usize,
            hash_scan_file_size: (s.hash_scan_file_size + msg.scan_file_count * msg.file_size) as u64,
            hash_cache_hit_full_count: (s.hash_cache_hit_full_count + msg.cache_hit_full_count) as usize,
            hash_cache_hit_partial_count: (s.hash_cache_hit_partial_count + msg.cache_hit_partial_count) as usize,
            hash_confirmed_dupe_count: (s.hash_confirmed_dupe_count + msg.confirmed_dupe_count) as usize,
            hash_confirmed_dupe_size: (s.hash_confirmed_dupe_size + msg.confirmed_dupe_count * msg.file_size) as u64,
            hash_confirmed_dupe_distinct_count: if msg.confirmed_dupe_count > 0 {
                (s.hash_confirmed_dupe_distinct_count + 1) as usize
            } else {
                s.hash_confirmed_dupe_distinct_count
            },
            hash_confirmed_dupe_distinct_size: if msg.confirmed_dupe_count > 0 {
                (s.hash_confirmed_dupe_distinct_size + msg.file_size) as u64
            } else {
                s.hash_confirmed_dupe_distinct_size
            },
            ..s
        }),
        StatusMessage::HashStartGenerateFileHash(_) => f == s,
        StatusMessage::HashFinishGenerateFileHash(msg) => match msg.hash_type {
            HashGenerateType::Full => {
                &&& f == (FileProcStats {
                    hash_gen_full_count: (s.hash_gen_full_count + 1) as usize,
                    hash_gen_full_duration: f.hash_gen_full_duration,
                    hash_gen_full_file_size: (s.hash_gen_full_file_size + msg.file_size) as u64,
                    ..s
                })
                &&& elapsed_wf(f.hash_gen_full_duration)
                &&& total_nanos(f.hash_gen_full_duration) == total_nanos(s.hash_gen_full_duration) + total_nanos(
                    msg.duration,
                )
            },
            HashGenerateType::Partial => {
                &&& f == (FileProcStats {
                    hash_gen_partial_count: (s.hash_gen_partial_count + 1) as usize,
                    hash_gen_partial_duration: f.hash_gen_partial_duration,
                    hash_gen_partial_file_size: (s.hash_gen_partial_file_size + msg.file_size) as u64,
                    ..s
                })
                &&& elapsed_wf(f.hash_gen_partial_duration)
                &&& total_nanos(f.hash_gen_partial_duration) == total_nanos(s.hash_gen_partial_duration)
                    + total_nanos(msg.duration)
            },
        },
        StatusMessage::HashFinish => {
            &&& f == (FileProcStats { hash_finish: f.hash_finish, hash_timer: f.hash_timer, ..s })
            &&& f.hash_finish is Some
            &&& finished_timer(s.hash_timer, f.hash_timer)
        },
        StatusMessage::CacheToDupeStart => {
            &&& f == (FileProcStats { cache_map_to_dupe_vec_start: f.cache_map_to_dupe_vec_start, ..s })
            &&& f.cache_map_to_dupe_vec_start is Some
        },
        StatusMessage::CacheToDupeProc(msg) => f == (FileProcStats {
            cache_map_to_dupe_vec_count: (s.cache_map_to_dupe_vec_count + msg.count) as usize,
            ..s
        }),
        StatusMessage::CacheToDupeFinish => {
            &&& f == (FileProcStats { cache_map_to_dupe_vec_finish: f.cache_map_to_dupe_vec_finish, ..s })
            &&& f.cache_map_to_dupe_vec_finish is Some
        },
        StatusMessage::ProcessFinish => {
            &&& f == (FileProcStats { process_finish: f.process_finish, process_timer: f.process_timer, ..s })
            &&& f.process_finish is Some
            &&& finished_timer(s.process_timer, f.process_timer)
        },
    }
}

/// The running totals of a scan: files and bytes seen, retained, hashed,
/// found in the cache, confirmed as duplicates, hashed in full or in part,
/// and moved into the duplicate list.
pub struct StatsTally {
    pub scanned_files: int,
    pub scanned_bytes: int,
    pub retained_files: int,
    pub retained_bytes: int,
    pub hashed_files: int,
    pub hashed_bytes: int,
    pub full_cache_hits: int,
    pub partial_cache_hits: int,
    pub confirmed_dupes: int,
    pub confirmed_dupe_bytes: int,
    pub distinct_dupes: int,
    pub distinct_dupe_bytes: int,
    pub full_hashes: int,
    pub full_hash_bytes: int,
    pub full_hash_nanos: int,
    pub partial_hashes: int,
    pub partial_hash_bytes: int,
    pub partial_hash_nanos: int,
    pub dupe_list_entries: int,
}

/// The totals that statistics hold.
pub open spec fn stats_tally(s: FileProcStats) -> StatsTally {
    StatsTally {
        scanned_files: s.scan_file_count as int,
        scanned_bytes: s.scan_file_size as int,
        retained_files: s.scan_size_dupe_file_count as int,
        retained_bytes: s.scan_size_dupe_file_size as int,
        hashed_files: s.hash_scan_file_count as int,
        hashed_bytes: s.hash_scan_file_size as int,
        full_cache_hits: s.hash_cache_hit_full_count as int,
        partial_cache_hits: s.hash_cache_hit_partial_count as int,
        confirmed_dupes: s.hash_confirmed_dupe_count as int,
        confirmed_dupe_bytes: s.hash_confirmed_dupe_size as int,
        distinct_dupes: s.hash_confirmed_dupe_distinct_count as int,
        distinct_dupe_bytes: s.hash_confirmed_dupe_distinct_size as int,
        full_hashes: s.hash_gen_full_count as int,
        full_hash_bytes: s.hash_gen_full_file_size as int,
        full_hash_nanos: total_nanos(s.hash_gen_full_duration),
        partial_hashes: s.hash_gen_partial_count as int,
        partial_hash_bytes: s.hash_gen_partial_file_size as int,
        partial_hash_nanos: total_nanos(s.hash_gen_partial_duration),
        dupe_list_entries: s.cache_map_to_dupe_vec_count as int,
    }
}

pub open spec fn no_tally() -> StatsTally {
    StatsTally {
        scanned_files: 0,
        scanned_bytes: 0,
        retained_files: 0,
        retained_bytes: 0,
        hashed_files: 0,
        hashed_bytes: 0,
        full_cache_hits: 0,
        partial_cache_hits: 0,
        confirmed_dupes: 0,
        confirmed_dupe_bytes: 0,
        distinct_dupes: 0,
        distinct_dupe_bytes: 0,
        full_hashes: 0,
        full_hash_bytes: 0,
        full_hash_nanos: 0,
        partial_hashes: 0,
        partial_hash_bytes: 0,
        partial_hash_nanos: 0,
        dupe_list_entries: 0,
    }
}

pub open spec fn tally_add(a: StatsTally, b: StatsTally) -> StatsTally {
    StatsTally {
        scanned_files: a.scanned_files + b.scanned_files,
        scanned_bytes: a.scanned_bytes + b.scanned_bytes,
        retained_files: a.retained_files + b.retained_files,
        retained_bytes: a.retained_bytes + b.retained_bytes,
        hashed_files: a.hashed_files + b.hashed_files,
        hashed_bytes: a.hashed_bytes + b.hashed_bytes,
        full_cache_hits: a.full_cache_hits + b.full_cache_hits,
        partial_cache_hits: a.partial_cache_hits + b.partial_cache_hits,
        confirmed_dupes: a.confirmed_dupes + b.confirmed_dupes,
        confirmed_dupe_bytes: a.confirmed_dupe_bytes + b.confirmed_dupe_bytes,
        distinct_dupes: a.distinct_dupes + b.distinct_dupes,
        distinct_dupe_bytes: a.distinct_dupe_bytes + b.distinct_dupe_bytes,
        full_hashes: a.full_hashes + b.full_hashes,
        full_hash_bytes: a.full_hash_bytes + b.full_hash_bytes,
        full_hash_nanos: a.full_hash_nanos + b.full_hash_nanos,
        partial_hashes: a.partial_hashes + b.partial_hashes,
        partial_hash_bytes: a.partial_hash_bytes + b.partial_hash_bytes,
        partial_hash_nanos: a.partial_hash_nanos + b.partial_hash_nanos,
        dupe_list_entries: a.dupe_list_entries + b.dupe_list_entries,
    }
}

/// What one message adds to the totals: an input file counts once with its
/// size; retained files count with their total size; a hash batch counts
/// its files, their bytes, its cache hits and confirmed duplicates (and one
/// distinct duplicate of its file size when it confirmed any); a finished
/// hash counts once with its file size and time; a dupe-list batch counts
/// its entries. Other messages add nothing.
pub open spec fn message_tally(m: StatusMessage) -> StatsTally {
    match m {
        StatusMessage::ScanAddInputFile(msg) => StatsTally { scanned_files: 1, scanned_bytes: msg.file_size as int, ..no_tally() },
        StatusMessage::ScanAddRetainedFile(msg) => StatsTally {
            retained_files: msg.count as int,
            retained_bytes: msg.count * msg.file_size,
            ..no_tally()
        },
        StatusMessage::HashProc(msg) => StatsTally {
            hashed_files: msg.scan_file_count as int,
            hashed_bytes: msg.scan_file_count * msg.file_size,
            full_cache_hits: msg.cache_hit_full_count as int,
            partial_cache_hits: msg.cache_hit_partial_count as int,
            confirmed_dupes: msg.confirmed_dupe_count as int,
            confirmed_dupe_bytes: msg.confirmed_dupe_count * msg.file_size,
            distinct_dupes: if msg.confirmed_dupe_count > 0 { 1 } else { 0 },
            distinct_dupe_bytes: if msg.confirmed_dupe_count > 0 { msg.file_size as int } else { 0 },
            ..no_tally()
        },
        StatusMessage::HashFinishGenerateFileHash(msg) => match msg.hash_type {
            HashGenerateType::Full => StatsTally {
                full_hashes: 1,
                full_hash_bytes: msg.file_size as int,
                full_hash_nanos: total_nanos(msg.duration),
                ..no_tally()
            },
            HashGenerateType::Partial => StatsTally {
                partial_hashes: 1,
                partial_hash_bytes: msg.file_size as int,
                partial_hash_nanos: total_nanos(msg.duration),
                ..no_tally()
            },
        },
        StatusMessage::CacheToDupeProc(msg) => StatsTally { dupe_list_entries: msg.count as int, ..no_tally() },
        _ => no_tally(),
    }
}

/// What a sequence of messages adds to the totals.
pub open spec fn messages_tally(ms: Seq<StatusMessage>) -> StatsTally
    decreases ms.len(),
{
    if ms.len() == 0 {
        no_tally()
    } else {
        tally_add(messages_tally(ms.drop_last()), message_tally(ms.last()))
    }
}

/// `states` are the statistics before and after each of `ms` is recorded
/// in turn, each message within what `update_stats` accepts.
pub open spec fn recorded_in_turn(states: Seq<FileProcStats>, ms: Seq<StatusMessage>) -> bool {
    &&& states.len() == ms.len() + 1
    &&& forall|i: int| 0 <= i < ms.len() ==> can_record(states[i], #[trigger] ms[i]) && recorded(states[i], ms[i], states[i + 1])
}

/// Recording one message adds exactly that message's amounts to the
/// totals: an input file adds one file and its size, a hash batch adds its
/// file count to the hashed files, and so on.
pub proof fn lemma_record_adds_message_tally(s: FileProcStats, m: StatusMessage, f: FileProcStats)
    requires
        can_record(s, m),
        recorded(s, m, f),
    ensures
        stats_tally(f) == tally_add(stats_tally(s), message_tally(m)),
{
}

/// The totals after recording messages in turn are the totals before plus
/// what each message adds: every counter is the sum of the amounts its
/// messages carried, in whatever order they came.
pub proof fn lemma_totals_sum_the_messages(states: Seq<FileProcStats>, ms: Seq<StatusMessage>)
    requires
        recorded_in_turn(states, ms),
    ensures
        stats_tally(states.last()) == tally_add(stats_tally(states[0]), messages_tally(ms)),
    decreases ms.len(),
{
    if ms.len() == 0 {
        assert(states.last() == states[0]);
    } else {
        let n = ms.len() - 1;
        let prefix_states = states.drop_last();
        let prefix = ms.drop_last();
        assert forall|i: int| 0 <= i < prefix.len() implies can_record(prefix_states[i], #[trigger] prefix[i]) && recorded(
            prefix_states[i],
            prefix[i],
            prefix_states[i + 1],
        ) by {
            assert(prefix[i] == ms[i]);
            assert(can_record(states[i], ms[i]) && recorded(states[i], ms[i], states[i + 1]));
        }
        lemma_totals_sum_the_messages(prefix_states, prefix);
        assert(prefix_states.last() == states[n]);
        assert(can_record(states[n], ms[n]) && recorded(states[n], ms[n], states[n + 1]));
        lemma_record_adds_message_tally(states[n], ms[n], states[n + 1]);
        assert(states.last() == states[n + 1]);
        assert(ms.last() == ms[n]);
    }
}

fn fits_usize(a: usize, b: usize) -> (r: bool)
    ensures
        r == (a + b <= usize::MAX),
{
    a.checked_add(b).is_some()
}

fn fits_u64(a: u64, b: u64) -> (r: bool)
    ensures
        r == (a + b <= u64::MAX),
{
    a.checked_add(b).is_some()
}

/// Whether `base + count * size` fits a `u64`.
fn product_fits(base: u64, count: usize, size: u64) -> (r: bool)
    ensures
        r == (count * size <= u64::MAX && base + count * size <= u64::MAX),
{
    match (count as u64).checked_mul(size) {
        Some(p) => base.checked_add(p).is_some(),
        None => false,
    }
}

fn spans_add(a: Elapsed, b: Elapsed) -> (r: bool)
    ensures
        r == (elapsed_wf(a) && can_add(a, b)),
{
    if a.nanos >= crate::stats::NANOS_PER_SECOND {
        return false;
    }
    let carry: u64 = if a.nanos as u64 + b.nanos as u64 >= crate::stats::NANOS_PER_SECOND as u64 {
        1
    } else {
        0
    };
    match a.secs.checked_add(b.secs) {
        Some(sum) => sum.checked_add(carry).is_some(),
        None => false,
    }
}

/// Whether `update_stats` may record `m` (see `can_record`).
pub fn can_record_message(s: &FileProcStats, m: &StatusMessage) -> (r: bool)
    ensures
        r == can_record(*s, *m),
{
    match m {
        StatusMessage::ScanAddInputFile(msg) => fits_usize(s.scan_file_count, 1) && fits_u64(s.scan_file_size, msg.file_size),
        StatusMessage::ScanAddRetainedFile(msg) => fits_usize(s.scan_size_dupe_file_count, msg.count) && product_fits(
            s.scan_size_dupe_file_size,
            msg.count,
            msg.file_size,
        ),
        StatusMessage::ScanFinish => s.scan_timer.is_started(),
        StatusMessage::HashProc(msg) => {
            fits_usize(s.hash_scan_file_count, msg.scan_file_count) && product_fits(
                s.hash_scan_file_size,
                msg.scan_file_count,
                msg.file_size,
            ) && fits_usize(s.hash_cache_hit_full_count, msg.cache_hit_full_count) && fits_usize(
                s.hash_cache_hit_partial_count,
                msg.cache_hit_partial_count,
            ) && fits_usize(s.hash_confirmed_dupe_count, msg.confirmed_dupe_count) && product_fits(
                s.hash_confirmed_dupe_size,
                msg.confirmed_dupe_count,
                msg.file_size,
            ) && (msg.confirmed_dupe_count == 0 || fits_usize(s.hash_confirmed_dupe_distinct_count, 1) && fits_u64(
                s.hash_confirmed_dupe_distinct_size,
                msg.file_size,
            ))
        },
        StatusMessage::HashFinishGenerateFileHash(msg) => {
            msg.duration.nanos < crate::stats::NANOS_PER_SECOND && match msg.hash_type {
                HashGenerateType::Full => fits_usize(s.hash_gen_full_count, 1) && spans_add(
                    s.hash_gen_full_duration,
                    msg.duration,
                ) && fits_u64(s.hash_gen_full_file_size, msg.file_size),
                HashGenerateType::Partial => fits_usize(s.hash_gen_partial_count, 1) && spans_add(
                    s.hash_gen_partial_duration,
                    msg.duration,
                ) && fits_u64(s.hash_gen_partial_file_size, msg.file_size),
            }
        },
        StatusMessage::HashFinish => s.hash_timer.is_started(),
        StatusMessage::CacheToDupeProc(msg) => fits_usize(s.cache_map_to_dupe_vec_count, msg.count),
        StatusMessage::ProcessFinish => s.process_timer.is_started(),
        _ => true,
    }
}

/// Records a status message in the run statistics: start and finish
/// messages read the clocks, the others advance counters.
pub fn update_stats(message: StatusMessage, stats: &mut FileProcStats)
    requires
        can_record(*old(stats), message),
    ensures
        recorded(*old(stats), message, *final(stats)),
{
    match message {
        StatusMessage::ProcessStart(_) => {
            stats.run_start_time = Some(unix_time_now());
            stats.process_start = Some(instant_now());
            stats.process_timer = StatsTimer::new();
        },
        StatusMessage::ScanStart(msg) => {
            stats.scan_start = Some(instant_now());
            stats.scan_timer = StatsTimer::new();
            stats.scan_input_paths = msg.input_paths;
        },
        StatusMessage::ScanAddInputFile(msg) => {
            stats.scan_file_count = stats.scan_file_count + 1;
            stats.scan_file_size = stats.scan_file_size + msg.file_size;
        },
        StatusMessage::ScanAddRetainedFile(msg) => {
            stats.scan_size_dupe_file_count = stats.scan_size_dupe_file_count + msg.count;
            stats.scan_size_dupe_file_size = stats.scan_size_dupe_file_size + (msg.count as u64) * msg.file_size;
        },
        StatusMessage::ScanFinish => {
            stats.scan_finish = Some(instant_now());
            stats.scan_timer.finish();
        },
        StatusMessage::HashStart => {
            stats.hash_start = Some(instant_now());
            stats.hash_timer = StatsTimer::new();
        },
        StatusMessage::HashProc(msg) => {
            stats.hash_scan_file_count = stats.hash_scan_file_count + msg.scan_file_count;
            stats.hash_scan_file_size = stats.hash_scan_file_size + (msg.scan_file_count as u64) * msg.file_size;
            stats.hash_cache_hit_full_count = stats.hash_cache_hit_full_count + msg.cache_hit_full_count;
            stats.hash_cache_hit_partial_count = stats.hash_cache_hit_partial_count + msg.cache_hit_partial_count;
            stats.hash_confirmed_dupe_count = stats.hash_confirmed_dupe_count + msg.confirmed_dupe_count;
            stats.hash_confirmed_dupe_size = stats.hash_confirmed_dupe_size + (msg.confirmed_dupe_count as u64)
                * msg.file_size;
            if msg.confirmed_dupe_count > 0 {
                stats.hash_confirmed_dupe_distinct_count = stats.hash_confirmed_dupe_distinct_count + 1;
                stats.hash_confirmed_dupe_distinct_size = stats.hash_confirmed_dupe_distinct_size + msg.file_size;
            }
        },
        StatusMessage::HashStartGenerateFileHash(_) => {},
        StatusMessage::HashFinishGenerateFileHash(msg) => {
            match msg.hash_type {
                HashGenerateType::Full => {
                    stats.hash_gen_full_count = stats.hash_gen_full_count + 1;
                    stats.hash_gen_full_duration = stats.hash_gen_full_duration.add(msg.duration);
                    stats.hash_gen_full_file_size = stats.hash_gen_full_file_size + msg.file_size;
                },
                HashGenerateType::Partial => {
                    stats.hash_gen_partial_count = stats.hash_gen_partial_count + 1;
                    stats.hash_gen_partial_duration = stats.hash_gen_partial_duration.add(msg.duration);
                    stats.hash_gen_partial_file_size = stats.hash_gen_partial_file_size + msg.file_size;
                },
            }
        },
        StatusMessage::HashFinish => {
            stats.hash_finish = Some(instant_now());
            stats.hash_timer.finish();
        },
        StatusMessage::CacheToDupeStart => {
            stats.cache_map_to_dupe_vec_start = Some(instant_now());
        },
        StatusMessage::CacheToDupeProc(msg) => {
            stats.cache_map_to_dupe_vec_count = stats.cache_map_to_dupe_vec_count + msg.count;
        },
        StatusMessage::CacheToDupeFinish => {
            stats.cache_map_to_dupe_vec_finish = Some(instant_now());
        },
        StatusMessage::ProcessFinish => {
            stats.process_finish = Some(instant_now());
            stats.process_timer.finish();
        },
    }
}

/// The progress bars of the status display.
#[derive(Debug, Copy, Clone, PartialEq, Eq, Structural)]
pub enum FileProcStatusType {
    Scan,
    Hash,
    HashBar,
    CacheToDupe,
    CacheToDupeBar,
    DbDupeFile,
}

/// The number of progress bars.
pub const STATUS_BAR_TYPE_COUNT: usize = 6;

impl FileProcStatusType {
    /// The position of the bar in the display, in declaration order.
    pub fn to_index(self) -> (r: usize)
        ensures
            r < STATUS_BAR_TYPE_COUNT,
            r == match self {
                FileProcStatusType::Scan => 0usize,
                FileProcStatusType::Hash => 1,
                FileProcStatusType::HashBar => 2,
                FileProcStatusType::CacheToDupe => 3,
                FileProcStatusType::CacheToDupeBar => 4,
                FileProcStatusType::DbDupeFile => 5,
            },
    {
        match self {
            FileProcStatusType::Scan => 0,
            FileProcStatusType::Hash => 1,
            FileProcStatusType::HashBar => 2,
            FileProcStatusType::CacheToDupe => 3,
            FileProcStatusType::CacheToDupeBar => 4,
            FileProcStatusType::DbDupeFile => 5,
        }
    }
}

/// A count as the status lines show it: digits grouped by thousands.
pub open spec fn count_text(n: nat) -> Seq<char> {
    group_thousands(decimal_nat(n))
}

/// A span as the status lines show it.
pub open spec fn span_text(e: Elapsed) -> Seq<char> {
    human_duration_text(e.secs as nat, e.nanos as nat)
}

pub open spec fn hash_kind_text(kind: HashGenerateType) -> Seq<char> {
    match kind {
        HashGenerateType::Full => "Full"@,
        HashGenerateType::Partial => "Partial"@,
    }
}

/// The spans that the status lines show are well formed.
pub open spec fn shown_spans_wf(s: FileProcStats) -> bool {
    &&& elapsed_wf(s.scan_timer@.duration)
    &&& elapsed_wf(s.hash_timer@.duration)
    &&& elapsed_wf(s.process_timer@.duration)
}

/// The line the status display shows for a message, once the message is
/// recorded in `s`; `None` for the messages that only move the bars.
pub open spec fn status_text_spec(m: StatusMessage, s: FileProcStats) -> Option<Seq<char>> {
    match m {
        StatusMessage::ProcessStart(msg) => Some(
            "Processing: "@ + join_with(msg.input_paths@.map_values(|p: String| p@), ", "@),
        ),
        StatusMessage::ScanAddInputFile(msg) => Some(
            count_text(s.scan_file_count as nat) + " files ("@ + human_bytes_text(s.scan_file_size as nat) + ") ("@
                + msg.file_path@ + ")"@,
        ),
        StatusMessage::ScanFinish => Some(
            "Scanned "@ + count_text(s.scan_file_count as nat) + " files ("@ + human_bytes_text(s.scan_file_size as nat)
                + "), "@ + count_text(s.scan_size_dupe_file_count as nat) + " possible dupes ("@ + human_bytes_text(
                s.scan_size_dupe_file_size as nat,
            ) + ") in "@ + span_text(s.scan_timer@.duration),
        ),
        StatusMessage::HashProc(_) => Some(
            "Hashing: "@ + human_bytes_text(s.hash_scan_file_count as nat) + " files ("@ + human_bytes_text(
                s.hash_scan_file_size as nat,
            ) + ") Confirmed Dupes: "@ + count_text(s.hash_confirmed_dupe_count as nat) + ", Cache hit/miss: full="@
                + count_text(s.hash_cache_hit_full_count as nat) + "/"@ + count_text(s.hash_gen_full_count as nat)
                + " partial="@ + count_text(s.hash_cache_hit_partial_count as nat) + "/"@ + count_text(
                s.hash_gen_partial_count as nat,
            ),
        ),
        StatusMessage::HashStartGenerateFileHash(msg) => Some(
            "Generating "@ + hash_kind_text(msg.hash_type) + " hash for "@ + msg.canonical_path@,
        ),
        StatusMessage::HashFinishGenerateFileHash(msg) => Some(
            "Generated "@ + hash_kind_text(msg.hash_type) + " hash for "@ + msg.canonical_path@,
        ),
        StatusMessage::HashFinish => Some(
            "Hashed "@ + count_text(s.hash_scan_file_count as nat) + " files ("@ + human_bytes_text(
                s.hash_scan_file_size as nat,
            ) + "), "@ + count_text(s.hash_confirmed_dupe_count as nat) + " confirmed Dupes - "@ + count_text(
                s.hash_confirmed_dupe_distinct_count as nat,
            ) + " ("@ + human_bytes_text(s.hash_confirmed_dupe_distinct_size as nat) + ") distinct dupe files in "@
                + span_text(s.hash_timer@.duration),
        ),
        StatusMessage::ProcessFinish => Some("Process complete in "@ + span_text(s.process_timer@.duration)),
        _ => None,
    }
}

/// Whether the status lines can be shown for these statistics.
pub fn can_show_status(stats: &FileProcStats) -> (r: bool)
    ensures
        r == shown_spans_wf(*stats),
{
    stats.scan_timer.get_duration().nanos < crate::stats::NANOS_PER_SECOND && stats.hash_timer.get_duration().nanos
        < crate::stats::NANOS_PER_SECOND && stats.process_timer.get_duration().nanos < crate::stats::NANOS_PER_SECOND
}

fn push_count(out: &mut Vec<char>, n: u64)
    ensures
        final(out)@ == old(out)@ + count_text(n as nat),
{
    let t = human_count(n);
    push_str(out, t.as_str());
}

fn push_bytes(out: &mut Vec<char>, n: u64)
    ensures
        final(out)@ == old(out)@ + human_bytes_text(n as nat),
{
    let t = human_bytes(n);
    push_str(out, t.as_str());
}

fn push_span(out: &mut Vec<char>, e: Elapsed)
    requires
        elapsed_wf(e),
    ensures
        final(out)@ == old(out)@ + span_text(e),
{
    let t = human_duration(e);
    push_str(out, t.as_str());
}

fn push_kind(out: &mut Vec<char>, kind: HashGenerateType)
    ensures
        final(out)@ == old(out)@ + hash_kind_text(kind),
{
    match kind {
        HashGenerateType::Full => push_str(out, "Full"),
        HashGenerateType::Partial => push_str(out, "Partial"),
    }
}

/// The line the status display shows for a message once it is recorded in
/// `stats`, or `None` for a message that only moves the bars.
pub fn status_text(message: &StatusMessage, stats: &FileProcStats) -> (r: Option<String>)
    requires
        shown_spans_wf(*stats),
    ensures
        option_view(r) == status_text_spec(*message, *stats),
{
    let mut out: Vec<char> = Vec::new();
    let ghost start = out@;
    match message {
        StatusMessage::ProcessStart(msg) => {
            push_str(&mut out, "Processing: ");
            let joined = join_strings(&msg.input_paths, ", ");
            push_str(&mut out, joined.as_str());
        },
        StatusMessage::ScanAddInputFile(msg) => {
            push_count(&mut out, stats.scan_file_count as u64);
            push_str(&mut out, " files (");
            push_bytes(&mut out, stats.scan_file_size);
            push_str(&mut out, ") (");
            push_str(&mut out, msg.file_path.as_str());
            push_str(&mut out, ")");
        },
        StatusMessage::ScanFinish => {
            push_str(&mut out, "Scanned ");
            push_count(&mut out, stats.scan_file_count as u64);
            push_str(&mut out, " files (");
            push_bytes(&mut out, stats.scan_file_size);
            push_str(&mut out, "), ");
            push_count(&mut out, stats.scan_size_dupe_file_count as u64);
            push_str(&mut out, " possible dupes (");
            push_bytes(&mut out, stats.scan_size_dupe_file_size);
            push_str(&mut out, ") in ");
            push_span(&mut out, stats.scan_timer.get_duration());
        },
        StatusMessage::HashProc(_) => {
            push_str(&mut out, "Hashing: ");
            push_bytes(&mut out, stats.hash_scan_file_count as u64);
            push_str(&mut out, " files (");
            push_bytes(&mut out, stats.hash_scan_file_size);
            push_str(&mut out, ") Confirmed Dupes: ");
            push_count(&mut out, stats.hash_confirmed_dupe_count as u64);
            push_str(&mut out, ", Cache hit/miss: full=");
            push_count(&mut out, stats.hash_cache_hit_full_count as u64);
            push_str(&mut out, "/");
            push_count(&mut out, stats.hash_gen_full_count as u64);
            push_str(&mut out, " partial=");
            push_count(&mut out, stats.hash_cache_hit_partial_count as u64);
            push_str(&mut out, "/");
            push_count(&mut out, stats.hash_gen_partial_count as u64);
        },
        StatusMessage::HashStartGenerateFileHash(msg) => {
            push_str(&mut out, "Generating ");
            push_kind(&mut out, msg.hash_type);
            push_str(&mut out, " hash for ");
            push_str(&mut out, msg.canonical_path.as_str());
        },
        StatusMessage::HashFinishGenerateFileHash(msg) => {
            push_str(&mut out, "Generated ");
            push_kind(&mut out, msg.hash_type);
            push_str(&mut out, " hash for ");
            push_str(&mut out, msg.canonical_path.as_str());
        },
        StatusMessage::HashFinish => {
            push_str(&mut out, "Hashed ");
            push_count(&mut out, stats.hash_scan_file_count as u64);
            push_str(&mut out, " files (");
            push_bytes(&mut out, stats.hash_scan_file_size);
            push_str(&mut out, "), ");
            push_count(&mut out, stats.hash_confirmed_dupe_count as u64);
            push_str(&mut out, " confirmed Dupes - ");
            push_count(&mut out, stats.hash_confirmed_dupe_distinct_count as u64);
            push_str(&mut out, " (");
            push_bytes(&mut out, stats.hash_confirmed_dupe_distinct_size);
            push_str(&mut out, ") distinct dupe files in ");
            push_span(&mut out, stats.hash_timer.get_duration());
        },
        StatusMessage::ProcessFinish => {
            push_str(&mut out, "Process complete in ");
            push_span(&mut out, stats.process_timer.get_duration());
        },
        _ => {
            return None;
        },
    }
    assert(Some(out@) =~~= status_text_spec(*message, *stats));
    Some(string_of(&out))
}

} // verus!
