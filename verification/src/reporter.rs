//! The progress a scan reports to the worker: counters merged from the
//! scan engine's callbacks, and when they are written to the database.
use vstd::prelude::*;
use crate::stats::{duration_between, elapsed_wf, total_nanos, Elapsed};
use crate::progress::Coalesced;
use crate::text::{decimal_nat, u64_to_decimal};
use crate::failure::string_from;
use crate::validate::option_view;

verus! {

/// The phases of the scan engine's telemetry.
#[derive(Clone, Copy, Debug, PartialEq, Eq, Structural)]
pub enum TelemetryPhase {
    Discovering,
    CandidateScreening,
    FullHashing,
    Persisting,
    AnalyzingFolders,
    Finalizing,
    Overall,
}

/// The phase name that clients of the first protocol version know: both
/// hashing stages read `hashing`, the overall view reads `discovering`.
pub open spec fn legacy_phase_spec(phase: TelemetryPhase) -> Seq<char> {
    match phase {
        TelemetryPhase::Discovering => "discovering"@,
        TelemetryPhase::CandidateScreening => "hashing"@,
        TelemetryPhase::FullHashing => "hashing"@,
        TelemetryPhase::Persisting => "persisting"@,
        TelemetryPhase::AnalyzingFolders => "analyzing_folders"@,
        TelemetryPhase::Finalizing => "finalizing"@,
        TelemetryPhase::Overall => "discovering"@,
    }
}

/// Version-1 clients are told each stage under its own name (discovering,
/// persisting, analyzing_folders, finalizing); only the two hashing stages
/// share `hashing`, and the overall view reads `discovering`. So two phases
/// read alike exactly when they are the same phase, both hashing stages,
/// or discovering and the overall view.
pub proof fn lemma_legacy_phase_names(a: TelemetryPhase, b: TelemetryPhase)
    ensures
        legacy_phase_spec(TelemetryPhase::Discovering) == "discovering"@,
        legacy_phase_spec(TelemetryPhase::Persisting) == "persisting"@,
        legacy_phase_spec(TelemetryPhase::AnalyzingFolders) == "analyzing_folders"@,
        legacy_phase_spec(TelemetryPhase::Finalizing) == "finalizing"@,
        legacy_phase_spec(TelemetryPhase::CandidateScreening) == "hashing"@,
        legacy_phase_spec(TelemetryPhase::FullHashing) == "hashing"@,
        legacy_phase_spec(TelemetryPhase::Overall) == "discovering"@,
        legacy_phase_spec(a) == legacy_phase_spec(b) <==> (a == b || ((a is CandidateScreening || a is FullHashing) && (
        b is CandidateScreening || b is FullHashing)) || ((a is Discovering || a is Overall) && (b is Discovering
            || b is Overall))),
{
    reveal_strlit("discovering");
    reveal_strlit("hashing");
    reveal_strlit("persisting");
    reveal_strlit("analyzing_folders");
    reveal_strlit("finalizing");
    assert("discovering"@.len() == 11 && "hashing"@.len() == 7 && "persisting"@.len() == 10);
    assert("analyzing_folders"@.len() == 17 && "finalizing"@.len() == 10);
    assert("persisting"@[0] != "finalizing"@[0]);
}

pub fn legacy_phase(phase: TelemetryPhase) -> (r: &'static str)
    ensures
        r@ == legacy_phase_spec(phase),
{
    match phase {
        TelemetryPhase::Discovering => "discovering",
        TelemetryPhase::CandidateScreening | TelemetryPhase::FullHashing => "hashing",
        TelemetryPhase::Persisting => "persisting",
        TelemetryPhase::AnalyzingFolders => "analyzing_folders",
        TelemetryPhase::Finalizing => "finalizing",
        TelemetryPhase::Overall => "discovering",
    }
}

/// The least time between two progress writes that nothing forces.
pub const DATABASE_PROGRESS_INTERVAL_NANOS: u64 = 500_000_000;

/// Whether progress is written to the database now: when forced, on the
/// first write (no earlier write, `None`), or once at least the write
/// interval has passed since the last write.
pub open spec fn database_write_due_spec(force: bool, since_last: Option<Elapsed>) -> bool {
    force || match since_last {
        None => true,
        Some(e) => e.secs > 0 || e.nanos >= DATABASE_PROGRESS_INTERVAL_NANOS,
    }
}

/// Progress is written when forced or on the first write; otherwise
/// exactly when at least half a second (500,000,000 ns) has passed since
/// the last write.
pub proof fn lemma_write_due_after_half_second(force: bool, since_last: Option<Elapsed>)
    requires
        since_last matches Some(e) ==> elapsed_wf(e),
    ensures
        force ==> database_write_due_spec(force, since_last),
        since_last is None ==> database_write_due_spec(force, since_last),
        !force ==> (since_last matches Some(e) ==> (database_write_due_spec(force, since_last) <==> total_nanos(e)
            >= 500_000_000)),
{
}

/// Decides whether progress is written to the database now.
pub fn database_write_due(force: bool, since_last: Option<Elapsed>) -> (r: bool)
    ensures
        r == database_write_due_spec(force, since_last),
{
    if force {
        return true;
    }
    match since_last {
        None => true,
        Some(e) => e.secs > 0 || e.nanos as u64 >= DATABASE_PROGRESS_INTERVAL_NANOS,
    }
}

/// The progress a run shows to clients of the first protocol version.
#[derive(Clone, Debug)]
pub struct LegacyProgressProjection {
    pub phase: String,
    pub files_discovered: usize,
    pub bytes_discovered: u64,
    pub files_hashed: usize,
    pub warning_count: usize,
    pub current_path: Option<String>,
}

/// A run's progress as the worker tracks it.
#[derive(Clone, Debug)]
pub struct ProgressState {
    pub phase: String,
    pub files_discovered: usize,
    pub bytes_discovered: u64,
    pub files_hashed: usize,
    pub warning_count: usize,
    /// Warnings already written to the database.
    pub durable_warning_count: usize,
    /// Warnings counted before the current phase began.
    pub phase_warning_base: usize,
    pub current_path: Option<String>,
    pub last_database_write: Option<std::time::Instant>,
}

/// What to do with the database after a progress update.
#[derive(Clone, Debug)]
pub enum UpdateStep {
    /// No write now; `caught_up` tells whether every warning is durable.
    Skip { caught_up: bool },
    /// Write these values.
    Write(ProgressRecord),
}

/// The progress values a database write carries.
#[derive(Clone, Debug)]
pub struct ProgressRecord {
    pub phase: String,
    pub files_discovered: usize,
    pub bytes_discovered: u64,
    pub files_hashed: usize,
    pub warning_count: usize,
}

fn max_usize(a: usize, b: usize) -> (r: usize)
    ensures
        r == if a >= b { a } else { b },
{
    if a >= b {
        a
    } else {
        b
    }
}

fn max_u64(a: u64, b: u64) -> (r: u64)
    ensures
        r == if a >= b { a } else { b },
{
    if a >= b {
        a
    } else {
        b
    }
}

pub open spec fn max(a: int, b: int) -> int {
    if a >= b {
        a
    } else {
        b
    }
}

/// The counters of `after` are at least those of `before`.
pub open spec fn counters_grow(before: ProgressState, after: ProgressState) -> bool {
    &&& after.files_discovered >= before.files_discovered
    &&& after.bytes_discovered >= before.bytes_discovered
    &&& after.files_hashed >= before.files_hashed
    &&& after.warning_count >= before.warning_count
}

/// A non-negative count read back from the database.
pub open spec fn clamp_count(v: i64) -> int {
    if v >= 0 {
        v as int
    } else {
        0
    }
}

fn clamp_to_usize(v: i64) -> (r: usize)
    requires
        v <= usize::MAX,
    ensures
        r == clamp_count(v),
{
    if v >= 0 {
        v as usize
    } else {
        0
    }
}

impl ProgressState {
    /// The progress of a run that has just started.
    pub fn new() -> (r: ProgressState)
        ensures
            r.phase@ == "discovering"@,
            r.files_discovered == 0 && r.bytes_discovered == 0 && r.files_hashed == 0,
            r.warning_count == 0 && r.durable_warning_count == 0 && r.phase_warning_base == 0,
            r.current_path is None,
            r.last_database_write is None,
    {
        ProgressState {
            phase: "discovering".to_owned(),
            files_discovered: 0,
            bytes_discovered: 0,
            files_hashed: 0,
            warning_count: 0,
            durable_warning_count: 0,
            phase_warning_base: 0,
            current_path: None,
            last_database_write: None,
        }
    }

    /// Reloads the counters from the run's durable row at a phase change:
    /// negative values read as zero, and every warning counted so far is
    /// durable and belongs to earlier phases.
    pub fn reload(&mut self, files_discovered: i64, bytes_discovered: i64, files_hashed: i64, warning_count: i64)
        requires
            files_discovered <= usize::MAX,
            files_hashed <= usize::MAX,
            warning_count <= usize::MAX,
        ensures
            final(self).files_discovered == clamp_count(files_discovered),
            final(self).bytes_discovered == clamp_count(bytes_discovered),
            final(self).files_hashed == clamp_count(files_hashed),
            final(self).warning_count == clamp_count(warning_count),
            final(self).durable_warning_count == final(self).warning_count,
            final(self).phase_warning_base == final(self).warning_count,
            final(self).phase == old(self).phase,
            final(self).current_path == old(self).current_path,
            final(self).last_database_write == old(self).last_database_write,
    {
        self.files_discovered = clamp_to_usize(files_discovered);
        self.bytes_discovered = if bytes_discovered >= 0 {
            bytes_discovered as u64
        } else {
            0
        };
        self.files_hashed = clamp_to_usize(files_hashed);
        self.warning_count = clamp_to_usize(warning_count);
        self.durable_warning_count = self.warning_count;
        self.phase_warning_base = self.warning_count;
    }

    /// Merges a discovery callback: each counter keeps the larger value.
    pub fn observe_discovery(&mut self, files_found: usize, bytes_found: u64, warning_count: usize)
        ensures
            final(self).files_discovered == max(old(self).files_discovered as int, files_found as int),
            final(self).bytes_discovered == max(old(self).bytes_discovered as int, bytes_found as int),
            final(self).warning_count == max(old(self).warning_count as int, warning_count as int),
            final(self).files_hashed == old(self).files_hashed,
            counters_grow(*old(self), *final(self)),
            final(self).phase == old(self).phase,
            final(self).durable_warning_count == old(self).durable_warning_count,
            final(self).phase_warning_base == old(self).phase_warning_base,
            final(self).current_path == old(self).current_path,
            final(self).last_database_write == old(self).last_database_write,
    {
        self.files_discovered = max_usize(self.files_discovered, files_found);
        self.bytes_discovered = max_u64(self.bytes_discovered, bytes_found);
        self.warning_count = max_usize(self.warning_count, warning_count);
    }

    /// Merges a hashing callback: hashed files keep the larger value, and the
    /// warnings are the phase's own on top of those of earlier phases.
    pub fn observe_hash(&mut self, files_hashed: usize, warning_count: usize)
        requires
            old(self).phase_warning_base + warning_count <= usize::MAX,
        ensures
            final(self).files_hashed == max(old(self).files_hashed as int, files_hashed as int),
            final(self).warning_count == old(self).phase_warning_base + warning_count,
            final(self).files_discovered == old(self).files_discovered,
            final(self).bytes_discovered == old(self).bytes_discovered,
            final(self).phase == old(self).phase,
            final(self).durable_warning_count == old(self).durable_warning_count,
            final(self).phase_warning_base == old(self).phase_warning_base,
            final(self).current_path == old(self).current_path,
            final(self).last_database_write == old(self).last_database_write,
    {
        self.files_hashed = max_usize(self.files_hashed, files_hashed);
        self.warning_count = self.phase_warning_base + warning_count;
    }

    /// Merges a telemetry snapshot: the phase follows the snapshot, the
    /// counters keep the larger value (discovered files not counting empty
    /// ones). Gives the projection to publish and whether warnings still
    /// wait for a durable write.
    pub fn observe_snapshot(
        &mut self,
        phase: TelemetryPhase,
        discovered_files: u64,
        zero_byte_files: u64,
        discovered_bytes: u64,
        partial_hashes_succeeded: u64,
        warning_count: u64,
    ) -> (r: (LegacyProgressProjection, bool))
        requires
            discovered_files <= usize::MAX,
            partial_hashes_succeeded <= usize::MAX,
            warning_count <= usize::MAX,
        ensures
            final(self).phase@ == legacy_phase_spec(phase),
            final(self).files_discovered == max(
                old(self).files_discovered as int,
                if discovered_files >= zero_byte_files { discovered_files - zero_byte_files } else { 0 },
            ),
            final(self).bytes_discovered == max(old(self).bytes_discovered as int, discovered_bytes as int),
            final(self).files_hashed == max(old(self).files_hashed as int, partial_hashes_succeeded as int),
            final(self).warning_count == max(old(self).warning_count as int, warning_count as int),
            counters_grow(*old(self), *final(self)),
            final(self).durable_warning_count == old(self).durable_warning_count,
            final(self).phase_warning_base == old(self).phase_warning_base,
            final(self).current_path == old(self).current_path,
            final(self).last_database_write == old(self).last_database_write,
            r.0.phase@ == final(self).phase@,
            r.0.files_discovered == final(self).files_discovered,
            r.0.bytes_discovered == final(self).bytes_discovered,
            r.0.files_hashed == final(self).files_hashed,
            r.0.warning_count == final(self).warning_count,
            r.0.current_path == final(self).current_path,
            r.1 == (final(self).warning_count > final(self).durable_warning_count),
    {
        self.phase = legacy_phase(phase).to_owned();
        let discovered = if discovered_files >= zero_byte_files {
            discovered_files - zero_byte_files
        } else {
            0
        };
        self.files_discovered = max_usize(self.files_discovered, discovered as usize);
        self.bytes_discovered = max_u64(self.bytes_discovered, discovered_bytes);
        self.files_hashed = max_usize(self.files_hashed, partial_hashes_succeeded as usize);
        self.warning_count = max_usize(self.warning_count, warning_count as usize);
        let projection = LegacyProgressProjection {
            phase: self.phase.clone(),
            files_discovered: self.files_discovered,
            bytes_discovered: self.bytes_discovered,
            files_hashed: self.files_hashed,
            warning_count: self.warning_count,
            current_path: self.current_path.clone(),
        };
        (projection, self.warning_count > self.durable_warning_count)
    }

    /// Applies an update and decides whether the database is written now,
    /// given the time since the last write (`None` before the first one):
    /// when forced, on the first write, or once the write interval has
    /// passed.
    pub fn apply_update(
        &mut self,
        phase: Option<&str>,
        current_path: Option<&str>,
        force: bool,
        since_last: Option<Elapsed>,
        now: std::time::Instant,
    ) -> (r: UpdateStep)
        requires
            (since_last is None) == (old(self).last_database_write is None),
        ensures
            final(self).phase@ == (match phase {
                Some(p) => p@,
                None => old(self).phase@,
            }),
            option_view(final(self).current_path) == (match current_path {
                Some(p) => if p@.len() > 0 {
                    Some(p@)
                } else {
                    option_view(old(self).current_path)
                },
                None => option_view(old(self).current_path),
            }),
            final(self).files_discovered == old(self).files_discovered,
            final(self).bytes_discovered == old(self).bytes_discovered,
            final(self).files_hashed == old(self).files_hashed,
            final(self).warning_count == old(self).warning_count,
            final(self).durable_warning_count == old(self).durable_warning_count,
            final(self).phase_warning_base == old(self).phase_warning_base,
            r is Write <==> database_write_due_spec(force, since_last),
            match r {
                UpdateStep::Skip { caught_up } => {
                    &&& caught_up == (old(self).warning_count <= old(self).durable_warning_count)
                    &&& final(self).last_database_write == old(self).last_database_write
                },
                UpdateStep::Write(record) => {
                    &&& record.phase@ == final(self).phase@
                    &&& record.files_discovered == old(self).files_discovered
                    &&& record.bytes_discovered == old(self).bytes_discovered
                    &&& record.files_hashed == old(self).files_hashed
                    &&& record.warning_count == old(self).warning_count
                    &&& final(self).last_database_write == Some(now)
                },
            },
    {
        match phase {
            Some(p) => {
                self.phase = p.to_owned();
            },
            None => {},
        }
        match current_path {
            Some(p) => {
                if !p.is_empty() {
                    self.current_path = Some(p.to_owned());
                }
            },
            None => {},
        }
        let write_database = database_write_due(force, since_last);
        if !write_database {
            return UpdateStep::Skip { caught_up: self.warning_count <= self.durable_warning_count };
        }
        self.last_database_write = Some(now);
        UpdateStep::Write(
            ProgressRecord {
                phase: self.phase.clone(),
                files_discovered: self.files_discovered,
                bytes_discovered: self.bytes_discovered,
                files_hashed: self.files_hashed,
                warning_count: self.warning_count,
            },
        )
    }


    /// Applies an update and decides whether the database is written now:
    /// when forced, on the first write, or once the write interval has
    /// passed since the last one, measured up to `now` (the measured time
    /// comes from the clock and is not stated; `apply_update` states the
    /// decision for each measurement).
    pub fn begin_update(
        &mut self,
        phase: Option<&str>,
        current_path: Option<&str>,
        force: bool,
        now: std::time::Instant,
    ) -> (r: UpdateStep)
        ensures
            final(self).phase@ == (match phase {
                Some(p) => p@,
                None => old(self).phase@,
            }),
            option_view(final(self).current_path) == (match current_path {
                Some(p) => if p@.len() > 0 {
                    Some(p@)
                } else {
                    option_view(old(self).current_path)
                },
                None => option_view(old(self).current_path),
            }),
            final(self).files_discovered == old(self).files_discovered,
            final(self).bytes_discovered == old(self).bytes_discovered,
            final(self).files_hashed == old(self).files_hashed,
            final(self).warning_count == old(self).warning_count,
            final(self).durable_warning_count == old(self).durable_warning_count,
            final(self).phase_warning_base == old(self).phase_warning_base,
            (force || old(self).last_database_write is None) ==> r is Write,
            match r {
                UpdateStep::Skip { caught_up } => {
                    &&& caught_up == (old(self).warning_count <= old(self).durable_warning_count)
                    &&& final(self).last_database_write == old(self).last_database_write
                },
                UpdateStep::Write(record) => {
                    &&& record.phase@ == final(self).phase@
                    &&& record.files_discovered == old(self).files_discovered
                    &&& record.bytes_discovered == old(self).bytes_discovered
                    &&& record.files_hashed == old(self).files_hashed
                    &&& record.warning_count == old(self).warning_count
                    &&& final(self).last_database_write == Some(now)
                },
            },
    {
        let since_last = match &self.last_database_write {
            None => None,
            Some(last) => Some(duration_between(last, &now)),
        };
        self.apply_update(phase, current_path, force, since_last, now)
    }

    /// Completes an update once the database step is done (`written`: the
    /// write succeeded; ignored when nothing was to be written) and says
    /// whether progress may be published: after a skipped write, when every
    /// counted warning is already durable; after a write, when it succeeded,
    /// and its warnings then count as durable. So progress is published only
    /// once every warning it counts is durable.
    pub fn finish_update(&mut self, step: &UpdateStep, written: bool) -> (published: bool)
        requires
            step matches UpdateStep::Skip { caught_up } ==> caught_up == (old(self).warning_count
                <= old(self).durable_warning_count),
            step matches UpdateStep::Write(record) ==> record.warning_count == old(self).warning_count,
        ensures
            match step {
                UpdateStep::Skip { caught_up } => published == *caught_up && *final(self) == *old(self),
                UpdateStep::Write(record) => {
                    &&& published == written
                    &&& final(self).durable_warning_count == if written {
                        max(old(self).durable_warning_count as int, record.warning_count as int) as usize
                    } else {
                        old(self).durable_warning_count
                    }
                    &&& *final(self) == (ProgressState { durable_warning_count: final(self).durable_warning_count, ..*old(self) })
                },
            },
            published ==> final(self).warning_count <= final(self).durable_warning_count,
    {
        match step {
            UpdateStep::Skip { caught_up } => *caught_up,
            UpdateStep::Write(record) => {
                if written {
                    self.record_durable(record.warning_count);
                }
                written
            },
        }
    }

    /// Notes a successful write of `warning_count` warnings; the durable
    /// count never goes down.
    pub fn record_durable(&mut self, warning_count: usize)
        ensures
            final(self).durable_warning_count == max(old(self).durable_warning_count as int, warning_count as int),
            final(self).durable_warning_count >= old(self).durable_warning_count,
            final(self).files_discovered == old(self).files_discovered,
            final(self).bytes_discovered == old(self).bytes_discovered,
            final(self).files_hashed == old(self).files_hashed,
            final(self).warning_count == old(self).warning_count,
            final(self).phase == old(self).phase,
            final(self).phase_warning_base == old(self).phase_warning_base,
            final(self).current_path == old(self).current_path,
            final(self).last_database_write == old(self).last_database_write,
    {
        self.durable_warning_count = max_usize(self.durable_warning_count, warning_count);
    }
}

/// The fields of a `run.progress` event besides the typed snapshot.
#[derive(Clone, Debug)]
pub struct ProgressEventFields {
    pub run_id: i64,
    pub sequence: u64,
    pub status: String,
    pub phase: String,
    pub files_discovered: usize,
    /// Byte counts travel as decimal strings.
    pub bytes_discovered: String,
    pub files_hashed: usize,
    pub warning_count: usize,
    pub current_path: Option<String>,
    pub message: Option<String>,
}

/// The note a progress event carries once warnings were counted.
pub open spec fn warning_note() -> Seq<char> {
    "The scan encountered recoverable warnings; see local diagnostics."@
}

/// The event fields of an emitted progress projection: the status reads
/// `cancelling` once cancellation was latched, an empty current path is
/// left out, and warnings add a note.
pub fn progress_event_fields(run_id: i64, progress: &Coalesced<LegacyProgressProjection>) -> (r: ProgressEventFields)
    ensures
        r.run_id == run_id,
        r.sequence == progress.sequence,
        r.status@ == (if progress.cancelling {
            "cancelling"@
        } else {
            "running"@
        }),
        r.phase@ == progress.value.phase@,
        r.files_discovered == progress.value.files_discovered,
        r.bytes_discovered@ == decimal_nat(progress.value.bytes_discovered as nat),
        r.files_hashed == progress.value.files_hashed,
        r.warning_count == progress.value.warning_count,
        option_view(r.current_path) == (match option_view(progress.value.current_path) {
            Some(p) => if p.len() > 0 {
                Some(p)
            } else {
                None
            },
            None => None,
        }),
        option_view(r.message) == (if progress.value.warning_count > 0 {
            Some(warning_note())
        } else {
            None
        }),
{
    let legacy = &progress.value;
    let current_path = match &legacy.current_path {
        Some(p) => if !p.as_str().is_empty() {
            Some(p.clone())
        } else {
            None
        },
        None => None,
    };
    let message = if legacy.warning_count > 0 {
        Some(string_from("The scan encountered recoverable warnings; see local diagnostics."))
    } else {
        None
    };
    ProgressEventFields {
        run_id,
        sequence: progress.sequence,
        status: if progress.cancelling {
            string_from("cancelling")
        } else {
            string_from("running")
        },
        phase: legacy.phase.clone(),
        files_discovered: legacy.files_discovered,
        bytes_discovered: u64_to_decimal(legacy.bytes_discovered),
        files_hashed: legacy.files_hashed,
        warning_count: legacy.warning_count,
        current_path,
        message,
    }
}

} // verus!
