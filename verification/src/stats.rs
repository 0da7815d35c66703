//! Run statistics of the scanner: timers, the counters that status
//! messages advance, and the rows of the summary table.
use vstd::prelude::*;
use crate::text::{chars_of, decimal_nat, string_of, u64_to_decimal};
use crate::cursor::push_str;

verus! {

pub const NANOS_PER_SECOND: u32 = 1_000_000_000;

/// A span of time: whole seconds and the nanoseconds beyond them.
#[derive(Clone, Copy, Debug, PartialEq, Eq, Structural)]
pub struct Elapsed {
    pub secs: u64,
    pub nanos: u32,
}

/// The nanoseconds beyond the seconds make less than one second.
pub open spec fn elapsed_wf(e: Elapsed) -> bool {
    e.nanos < NANOS_PER_SECOND
}

pub open spec fn total_nanos(e: Elapsed) -> int {
    e.secs * 1_000_000_000 + e.nanos
}

/// Whether two spans can be added without the seconds overflowing.
pub open spec fn can_add(a: Elapsed, b: Elapsed) -> bool {
    a.secs + b.secs + (if a.nanos + b.nanos >= NANOS_PER_SECOND {
        1int
    } else {
        0int
    }) <= u64::MAX
}

impl Elapsed {
    /// The empty span.
    pub fn zero() -> (r: Elapsed)
        ensures
            r.secs == 0,
            r.nanos == 0,
    {
        Elapsed { secs: 0, nanos: 0 }
    }

    /// The sum of two spans.
    pub fn add(self, other: Elapsed) -> (r: Elapsed)
        requires
            elapsed_wf(self),
            elapsed_wf(other),
            can_add(self, other),
        ensures
            elapsed_wf(r),
            total_nanos(r) == total_nanos(self) + total_nanos(other),
    {
        let nanos = self.nanos + other.nanos;
        if nanos >= NANOS_PER_SECOND {
            Elapsed { secs: self.secs + other.secs + 1, nanos: nanos - NANOS_PER_SECOND }
        } else {
            Elapsed { secs: self.secs + other.secs, nanos }
        }
    }
}

/// The monotonic clock's instants.
#[verifier::external_type_specification]
#[verifier::external_body]
pub struct ExInstant(std::time::Instant);

/// `Instant::now`: a reading of the monotonic clock. Nothing is stated of
/// the instant it gives.
#[verifier::external_body]
pub(crate) fn instant_now() -> std::time::Instant {
    std::time::Instant::now()
}

/// The time from one instant of the monotonic clock to a later one, as
/// `Instant::duration_since` measures it (zero when `later` comes first).
pub uninterp spec fn instant_span(earlier: std::time::Instant, later: std::time::Instant) -> Elapsed;

/// `Instant::duration_since`: the time from `earlier` to `later`, as seconds
/// and nanoseconds. The result is the named span of the two instants, with
/// the nanoseconds below one second; how long that span is, is what the
/// clock measured.
#[verifier::external_body]
pub(crate) fn duration_between(earlier: &std::time::Instant, later: &std::time::Instant) -> (r: Elapsed)
    ensures
        elapsed_wf(r),
        r == instant_span(*earlier, *later),
{
    let d = later.duration_since(*earlier);
    Elapsed { secs: d.as_secs(), nanos: d.subsec_nanos() }
}

/// `n` written in decimal with at least two digits.
pub open spec fn pad2(n: nat) -> Seq<char> {
    if n < 10 {
        seq!['0'] + decimal_nat(n)
    } else {
        decimal_nat(n)
    }
}

/// `n` written in decimal with at least three digits.
pub open spec fn pad3(n: nat) -> Seq<char> {
    if n < 10 {
        seq!['0', '0'] + decimal_nat(n)
    } else if n < 100 {
        seq!['0'] + decimal_nat(n)
    } else {
        decimal_nat(n)
    }
}

/// A span as `HH:MM:SS.mmm`; the hours take more digits when they need them.
pub open spec fn clock_text(e: Elapsed) -> Seq<char> {
    let secs = e.secs as nat;
    pad2(secs / 3600) + seq![':'] + pad2((secs % 3600) / 60) + seq![':'] + pad2(secs % 60) + seq!['.'] + pad3(
        (e.nanos / 1_000_000) as nat,
    )
}

fn push_padded(out: &mut Vec<char>, n: u64, width: u64)
    requires
        width == 2 || width == 3,
    ensures
        final(out)@ == old(out)@ + (if width == 2 {
            pad2(n as nat)
        } else {
            pad3(n as nat)
        }),
{
    let ghost start = out@;
    if n < 10 {
        out.push('0');
        if width == 3 {
            out.push('0');
        }
    } else if n < 100 && width == 3 {
        out.push('0');
    }
    let d = u64_to_decimal(n);
    push_str(out, d.as_str());
    assert(out@ =~= start + (if width == 2 {
        pad2(n as nat)
    } else {
        pad3(n as nat)
    }));
}

/// The text of a span as `HH:MM:SS.mmm`.
pub fn elapsed_clock_text(e: Elapsed) -> (r: String)
    ensures
        r@ == clock_text(e),
{
    let secs = e.secs;
    let mut out: Vec<char> = Vec::new();
    push_padded(&mut out, secs / 3600, 2);
    out.push(':');
    push_padded(&mut out, (secs % 3600) / 60, 2);
    out.push(':');
    push_padded(&mut out, secs % 60, 2);
    out.push('.');
    push_padded(&mut out, (e.nanos / 1_000_000) as u64, 3);
    assert(out@ =~= clock_text(e));
    string_of(&out)
}

/// A stopwatch: started when made, stopped by `finish`.
#[derive(Debug, Clone)]
pub struct StatsTimer {
    start_time: Option<std::time::Instant>,
    finish_time: Option<std::time::Instant>,
    duration: Elapsed,
}

pub struct TimerView {
    pub start_time: Option<std::time::Instant>,
    pub finish_time: Option<std::time::Instant>,
    pub duration: Elapsed,
}

impl TimerView {
    pub open spec fn started(self) -> bool {
        self.start_time is Some
    }

    pub open spec fn finished(self) -> bool {
        self.finish_time is Some
    }
}

/// `after` is `before` stopped by `finish`: the start is kept, a finish
/// instant is recorded, and the duration is the clock's span from the start
/// to that finish.
pub open spec fn timer_finish(before: TimerView, after: TimerView) -> bool {
    &&& after.started()
    &&& after.finished()
    &&& after.start_time == before.start_time
    &&& elapsed_wf(after.duration)
    &&& after.finish_time matches Some(f) && before.start_time matches Some(s) && after.duration == instant_span(s, f)
}

/// Finishing a timer a second time measures again from the start it was
/// made with: only the finish moves, and the duration is the span from the
/// first start to the latest finish.
pub proof fn lemma_refinish_measures_from_start(t0: TimerView, t1: TimerView, t2: TimerView)
    requires
        t0.started(),
        timer_finish(t0, t1),
        timer_finish(t1, t2),
    ensures
        t2.start_time == t0.start_time,
        t2.finish_time matches Some(f) && t0.start_time matches Some(s) && t2.duration == instant_span(s, f),
{
}

impl View for StatsTimer {
    type V = TimerView;

    closed spec fn view(&self) -> TimerView {
        TimerView { start_time: self.start_time, finish_time: self.finish_time, duration: self.duration }
    }
}

impl Default for StatsTimer {
    fn default() -> (r: StatsTimer)
        ensures
            !r@.started(),
            !r@.finished(),
            r@.duration == Elapsed::zero_spec(),
    {
        StatsTimer { start_time: None, finish_time: None, duration: Elapsed::zero() }
    }
}

impl Elapsed {
    pub open spec fn zero_spec() -> Elapsed {
        Elapsed { secs: 0, nanos: 0 }
    }
}

impl StatsTimer {
    /// A timer started now.
    pub fn new() -> (r: StatsTimer)
        ensures
            r@.started(),
            !r@.finished(),
            r@.duration == Elapsed::zero_spec(),
    {
        StatsTimer { start_time: Some(instant_now()), finish_time: None, duration: Elapsed::zero() }
    }

    /// Stops the timer and records the time since it started. The timer
    /// must have been started.
    pub fn finish(&mut self)
        requires
            old(self)@.started(),
        ensures
            timer_finish(old(self)@, final(self)@),
    {
        let now = instant_now();
        let start = self.start_time.unwrap();
        self.duration = duration_between(&start, &now);
        self.finish_time = Some(now);
    }

    /// Whether the timer was started.
    pub fn is_started(&self) -> (r: bool)
        ensures
            r == self@.started(),
    {
        self.start_time.is_some()
    }

    /// The time recorded by `finish`; zero before it.
    pub fn get_duration(&self) -> (r: Elapsed)
        ensures
            r == self@.duration,
    {
        self.duration
    }

    /// The recorded time in words, as `indicatif::HumanDuration` writes it.
    /// The recorded time must be well formed, as `finish` leaves it.
    pub fn get_duration_human(&self) -> (r: String)
        requires
            elapsed_wf(self@.duration),
        ensures
            r@ == human_duration_text(self@.duration.secs as nat, self@.duration.nanos as nat),
    {
        human_duration(self.duration)
    }

    /// The recorded time as `HH:MM:SS.mmm`.
    pub fn get_duration_string(&self) -> (r: String)
        ensures
            r@ == clock_text(self@.duration),
    {
        elapsed_clock_text(self.duration)
    }
}


/// What `indicatif::HumanDuration` writes for a span: a rounded count of
/// its largest fitting unit.
pub uninterp spec fn human_duration_text(secs: nat, nanos: nat) -> Seq<char>;

/// `indicatif::HumanDuration(Duration::new(secs, nanos)).to_string()`: the
/// text is named, not stated (its rounding works in floating point).
#[verifier::external_body]
pub(crate) fn human_duration(e: Elapsed) -> (r: String)
    requires
        elapsed_wf(e),
    ensures
        r@ == human_duration_text(e.secs as nat, e.nanos as nat),
{
    indicatif::HumanDuration(std::time::Duration::new(e.secs, e.nanos)).to_string()
}

/// What `indicatif::HumanBytes` writes for a byte count: binary prefixes
/// with two decimals.
pub uninterp spec fn human_bytes_text(bytes: nat) -> Seq<char>;

/// `indicatif::HumanBytes(bytes).to_string()`: the text is named, not stated
/// (it is computed in floating point).
#[verifier::external_body]
pub(crate) fn human_bytes(bytes: u64) -> (r: String)
    ensures
        r@ == human_bytes_text(bytes as nat),
{
    indicatif::HumanBytes(bytes).to_string()
}

/// Decimal digits with a comma between each group of three, counted from
/// the right.
pub open spec fn group_thousands(d: Seq<char>) -> Seq<char>
    decreases d.len(),
{
    if d.len() <= 3 {
        d
    } else {
        group_thousands(d.subrange(0, d.len() - 3)) + seq![','] + d.subrange(d.len() - 3, d.len() as int)
    }
}

/// `indicatif::HumanCount(n).to_string()`: the decimal digits of `n`, a
/// comma written after each digit that has a positive multiple of three
/// digits after it.
#[verifier::external_body]
pub(crate) fn human_count(n: u64) -> (r: String)
    ensures
        r@ == group_thousands(decimal_nat(n as nat)),
{
    indicatif::HumanCount(n).to_string()
}

/// What chrono writes for the UTC instant `secs` seconds after the Unix
/// epoch, formatted by `pattern`; `None` where chrono's calendar does not
/// reach the instant.
pub uninterp spec fn utc_datetime_text(secs: int, pattern: Seq<char>) -> Option<Seq<char>>;

/// `chrono::DateTime::<Utc>::from_timestamp(secs, 0)`, formatted with
/// `pattern` when chrono can represent the instant. The pattern is the
/// summary's, whose items chrono always formats.
#[verifier::external_body]
fn format_utc_seconds(secs: i64, pattern: &str) -> (r: Option<String>)
    requires
        pattern@ == datetime_pattern(),
    ensures
        r is Some <==> utc_datetime_text(secs as int, pattern@) is Some,
        r matches Some(t) ==> utc_datetime_text(secs as int, pattern@) == Some(t@),
{
    match chrono::DateTime::<chrono::Utc>::from_timestamp(secs, 0) {
        Some(t) => Some(t.format(pattern).to_string()),
        None => None,
    }
}

/// `SystemTime::now().duration_since(UNIX_EPOCH)`: a reading of the wall
/// clock as the span after the Unix epoch (`Ok`) or before it (`Err`).
/// Nothing is stated of the reading but the range of its nanoseconds.
#[verifier::external_body]
fn system_time_since_epoch() -> (r: Result<Elapsed, Elapsed>)
    ensures
        match r {
            Ok(e) => elapsed_wf(e),
            Err(e) => elapsed_wf(e),
        },
{
    match std::time::SystemTime::now().duration_since(std::time::UNIX_EPOCH) {
        Ok(d) => Ok(Elapsed { secs: d.as_secs(), nanos: d.subsec_nanos() }),
        Err(e) => Err(Elapsed { secs: e.duration().as_secs(), nanos: e.duration().subsec_nanos() }),
    }
}

/// Whole seconds since the Unix epoch of a wall-clock reading, rounded
/// down, and held within an `i64`.
pub open spec fn epoch_seconds_spec(reading: Result<Elapsed, Elapsed>) -> i64 {
    match reading {
        Ok(e) => if e.secs > i64::MAX {
            i64::MAX
        } else {
            e.secs as i64
        },
        Err(e) => {
            let down = -(e.secs as int) - (if e.nanos > 0 {
                1int
            } else {
                0int
            });
            if down < i64::MIN {
                i64::MIN
            } else {
                down as i64
            }
        },
    }
}

/// The whole seconds since the Unix epoch of a wall-clock reading.
pub fn epoch_seconds(reading: Result<Elapsed, Elapsed>) -> (r: i64)
    ensures
        r == epoch_seconds_spec(reading),
{
    match reading {
        Ok(e) => if e.secs > i64::MAX as u64 {
            i64::MAX
        } else {
            e.secs as i64
        },
        Err(e) => {
            if e.secs > i64::MAX as u64 {
                i64::MIN
            } else {
                let back = e.secs as i64;
                if e.nanos > 0 {
                    -back - 1
                } else {
                    -back
                }
            }
        },
    }
}

/// The wall clock in whole seconds since the Unix epoch, rounded down;
/// the reading itself is not stated.
pub(crate) fn unix_time_now() -> i64 {
    epoch_seconds(system_time_since_epoch())
}

/// The format of wall-clock times in the summary.
pub open spec fn datetime_pattern() -> Seq<char> {
    "%Y-%m-%d %H:%M:%S"@
}

/// What Unicode's `char::to_uppercase` gives for a character.
pub uninterp spec fn uppercase_of(c: char) -> Seq<char>;

/// `char::to_uppercase`, collected.
#[verifier::external_body]
fn uppercase_chars(c: char) -> (r: Vec<char>)
    ensures
        r@ == uppercase_of(c),
{
    c.to_uppercase().collect()
}

/// The pieces of `s` between the occurrences of `sep` (`str::split`).
pub open spec fn split_on(s: Seq<char>, sep: char) -> Seq<Seq<char>>
    decreases s.len(),
{
    if s.len() == 0 {
        seq![Seq::empty()]
    } else {
        let rest = split_on(s.drop_last(), sep);
        if s.last() == sep {
            rest.push(Seq::empty())
        } else {
            rest.update(rest.len() - 1, rest.last().push(s.last()))
        }
    }
}

/// The items joined by `sep`.
pub open spec fn join_with(items: Seq<Seq<char>>, sep: Seq<char>) -> Seq<char>
    decreases items.len(),
{
    if items.len() == 0 {
        Seq::empty()
    } else if items.len() == 1 {
        items[0]
    } else {
        join_with(items.drop_last(), sep) + sep + items.last()
    }
}

/// A word with its first character in upper case.
pub open spec fn capitalize(word: Seq<char>) -> Seq<char> {
    if word.len() == 0 {
        Seq::empty()
    } else {
        uppercase_of(word[0]) + word.drop_first()
    }
}

/// The display name of a statistic: its snake-case words capitalized and
/// separated by spaces.
pub open spec fn human_name_spec(name: Seq<char>) -> Seq<char> {
    join_with(split_on(name, '_').map_values(|w: Seq<char>| capitalize(w)), " "@)
}

proof fn lemma_split_on_nonempty(s: Seq<char>, sep: char)
    ensures
        split_on(s, sep).len() >= 1,
    decreases s.len(),
{
    if s.len() > 0 {
        lemma_split_on_nonempty(s.drop_last(), sep);
    }
}

/// The words of `name` between underscores.
pub(crate) fn split_text(name: &str, sep: char) -> (r: Vec<Vec<char>>)
    ensures
        r@.map_values(|w: Vec<char>| w@) == split_on(name@, sep),
{
    let chars = chars_of(name);
    let mut words: Vec<Vec<char>> = Vec::new();
    let mut current: Vec<char> = Vec::new();
    let mut i: usize = 0;
    while i < chars.len()
        invariant
            i <= chars@.len(),
            chars@ == name@,
            words@.map_values(|w: Vec<char>| w@).push(current@) == split_on(chars@.subrange(0, i as int), sep),
        decreases chars.len() - i,
    {
        let c = chars[i];
        let ghost prefix = chars@.subrange(0, i + 1);
        assert(prefix.drop_last() =~= chars@.subrange(0, i as int));
        assert(prefix.last() == c);
        let ghost before = words@.map_values(|w: Vec<char>| w@).push(current@);
        if c == sep {
            words.push(current);
            current = Vec::new();
            assert(words@.map_values(|w: Vec<char>| w@).push(current@) =~= before.push(Seq::empty()));
        } else {
            let ghost old_words = words@;
            current.push(c);
            assert(words@.map_values(|w: Vec<char>| w@).push(current@) =~= before.update(
                before.len() - 1,
                before.last().push(c),
            ));
        }
        i = i + 1;
    }
    assert(chars@.subrange(0, chars@.len() as int) =~= chars@);
    let ghost before = words@.map_values(|w: Vec<char>| w@).push(current@);
    words.push(current);
    assert(words@.map_values(|w: Vec<char>| w@) =~= before);
    words
}

/// The display name of a statistic: `scan_file_count` becomes
/// `Scan File Count`.
pub fn humanize_name(name: &str) -> (r: String)
    ensures
        r@ == human_name_spec(name@),
{
    let words = split_text(name, '_');
    let ghost caps = words@.map_values(|w: Vec<char>| w@).map_values(|w: Seq<char>| capitalize(w));
    let mut out: Vec<char> = Vec::new();
    let mut i: usize = 0;
    while i < words.len()
        invariant
            i <= words@.len(),
            caps == words@.map_values(|w: Vec<char>| w@).map_values(|w: Seq<char>| capitalize(w)),
            out@ == join_with(caps.subrange(0, i as int), " "@),
        decreases words.len() - i,
    {
        let ghost sub = caps.subrange(0, i + 1);
        assert(sub.drop_last() =~= caps.subrange(0, i as int));
        assert(sub.last() == capitalize(words@[i as int]@));
        let ghost start = out@;
        proof {
            reveal_strlit(" ");
        }
        if i > 0 {
            out.push(' ');
        }
        let ghost lead = if i > 0 {
            start + " "@
        } else {
            start
        };
        assert(out@ =~= lead);
        let word = &words[i];
        if word.len() > 0 {
            let upper = uppercase_chars(word[0]);
            assert(out@ =~= lead + upper@.subrange(0, 0));
            let mut k: usize = 0;
            while k < upper.len()
                invariant
                    k <= upper@.len(),
                    out@ == lead + upper@.subrange(0, k as int),
                decreases upper.len() - k,
            {
                out.push(upper[k]);
                assert(upper@.subrange(0, k + 1) =~= upper@.subrange(0, k as int).push(upper@[k as int]));
                k = k + 1;
            }
            assert(upper@.subrange(0, upper@.len() as int) =~= upper@);
            assert(out@ =~= lead + upper@ + word@.subrange(1, 1));
            let mut k: usize = 1;
            while k < word.len()
                invariant
                    1 <= k <= word@.len(),
                    out@ == lead + upper@ + word@.subrange(1, k as int),
                decreases word.len() - k,
            {
                out.push(word[k]);
                assert(word@.subrange(1, k + 1) =~= word@.subrange(1, k as int).push(word@[k as int]));
                k = k + 1;
            }
            assert(word@.subrange(1, word@.len() as int) =~= word@.drop_first());
        }
        proof {
            reveal_strlit(" ");
            if i == 0 {
                assert(join_with(caps.subrange(0, 0), " "@) =~= Seq::<char>::empty());
                assert(out@ =~= join_with(sub, " "@));
            } else {
                assert(out@ =~= join_with(sub, " "@));
            }
        }
        i = i + 1;
    }
    assert(caps.subrange(0, words@.len() as int) =~= caps);
    string_of(&out)
}


/// The value of one statistic.
#[derive(Debug, Clone)]
pub enum FileProcStatsValueType {
    Duration(Elapsed),
    Count(usize),
    FileSize(u64),
    /// Wall-clock time, in whole seconds since the Unix epoch (UTC).
    SystemTime(i64),
    StringVec(Vec<String>),
}

pub enum ValueView {
    Duration(Elapsed),
    Count(nat),
    FileSize(nat),
    SystemTime(int),
    StringVec(Seq<Seq<char>>),
}

impl View for FileProcStatsValueType {
    type V = ValueView;

    open spec fn view(&self) -> ValueView {
        match self {
            FileProcStatsValueType::Duration(e) => ValueView::Duration(*e),
            FileProcStatsValueType::Count(n) => ValueView::Count(*n as nat),
            FileProcStatsValueType::FileSize(n) => ValueView::FileSize(*n as nat),
            FileProcStatsValueType::SystemTime(t) => ValueView::SystemTime(*t as int),
            FileProcStatsValueType::StringVec(v) => ValueView::StringVec(v@.map_values(|s: String| s@)),
        }
    }
}

/// A value can be shown when its span is well formed and its wall-clock
/// time lies within chrono's calendar.
pub open spec fn value_printable(v: ValueView) -> bool {
    match v {
        ValueView::Duration(e) => elapsed_wf(e),
        ValueView::SystemTime(t) => utc_datetime_text(t, datetime_pattern()) is Some,
        _ => true,
    }
}

/// How a value reads in the summary table.
pub open spec fn value_human_text(v: ValueView) -> Seq<char> {
    match v {
        ValueView::Duration(e) => human_duration_text(e.secs as nat, e.nanos as nat),
        ValueView::Count(n) => group_thousands(decimal_nat(n)),
        ValueView::FileSize(n) => human_bytes_text(n),
        ValueView::SystemTime(t) => utc_datetime_text(t, datetime_pattern()).unwrap(),
        ValueView::StringVec(items) => join_with(items, ", "@),
    }
}

/// How a value reads in the CSV export.
pub open spec fn value_raw_text(v: ValueView) -> Seq<char> {
    match v {
        ValueView::Duration(e) => clock_text(e),
        ValueView::Count(n) => decimal_nat(n),
        ValueView::FileSize(n) => decimal_nat(n),
        ValueView::SystemTime(t) => utc_datetime_text(t, datetime_pattern()).unwrap(),
        ValueView::StringVec(items) => join_with(items, ", "@),
    }
}

/// One row of the summary: the statistic's key and display name, its value,
/// and the value's display and export texts.
#[derive(Debug, Clone)]
pub struct FileProcStatsPrintItem {
    pub name: String,
    pub human_name: String,
    pub value: FileProcStatsValueType,
    pub human_value: String,
    pub raw_string_value: String,
}

/// A row whose texts follow from its value; the display name is given or
/// derived from the key.
pub open spec fn item_matches(item: FileProcStatsPrintItem, name: Seq<char>, human_name: Option<Seq<char>>, value: ValueView) -> bool {
    &&& item.name@ == name
    &&& item.human_name@ == (match human_name {
        Some(h) => h,
        None => human_name_spec(name),
    })
    &&& item.value@ == value
    &&& item.human_value@ == value_human_text(value)
    &&& item.raw_string_value@ == value_raw_text(value)
}

pub(crate) fn join_strings(items: &Vec<String>, sep: &str) -> (r: String)
    ensures
        r@ == join_with(items@.map_values(|s: String| s@), sep@),
{
    let ghost views = items@.map_values(|s: String| s@);
    let mut out: Vec<char> = Vec::new();
    let mut i: usize = 0;
    while i < items.len()
        invariant
            i <= items@.len(),
            views == items@.map_values(|s: String| s@),
            out@ == join_with(views.subrange(0, i as int), sep@),
        decreases items.len() - i,
    {
        let ghost sub = views.subrange(0, i + 1);
        assert(sub.drop_last() =~= views.subrange(0, i as int));
        assert(sub.last() == items@[i as int]@);
        if i > 0 {
            push_str(&mut out, sep);
        }
        push_str(&mut out, items[i].as_str());
        proof {
            if i == 0 {
                assert(join_with(views.subrange(0, 0), sep@) =~= Seq::<char>::empty());
            }
        }
        assert(out@ =~= join_with(sub, sep@));
        i = i + 1;
    }
    assert(views.subrange(0, items@.len() as int) =~= views);
    string_of(&out)
}

fn utc_text(secs: i64) -> (r: String)
    requires
        utc_datetime_text(secs as int, datetime_pattern()) is Some,
    ensures
        r@ == utc_datetime_text(secs as int, datetime_pattern()).unwrap(),
{
    proof {
        reveal_strlit("%Y-%m-%d %H:%M:%S");
    }
    match format_utc_seconds(secs, "%Y-%m-%d %H:%M:%S") {
        Some(t) => t,
        None => String::new(),
    }
}

impl FileProcStatsPrintItem {
    /// A summary row for the statistic `name`; without a display name, one
    /// is made from the key (`scan_file_count` reads `Scan File Count`).
    pub fn new(name: &str, human_name: Option<&str>, value: FileProcStatsValueType) -> (r: FileProcStatsPrintItem)
        requires
            value_printable(value@),
        ensures
            item_matches(
                r,
                name@,
                match human_name {
                    Some(h) => Some(h@),
                    None => None,
                },
                value@,
            ),
    {
        let human = match human_name {
            Some(h) => h.to_owned(),
            None => humanize_name(name),
        };
        let (human_value, raw_string_value) = match &value {
            FileProcStatsValueType::Duration(e) => (human_duration(*e), elapsed_clock_text(*e)),
            FileProcStatsValueType::Count(n) => (human_count(*n as u64), u64_to_decimal(*n as u64)),
            FileProcStatsValueType::FileSize(n) => (human_bytes(*n), u64_to_decimal(*n)),
            FileProcStatsValueType::SystemTime(t) => {
                let text = utc_text(*t);
                (text.clone(), text)
            },
            FileProcStatsValueType::StringVec(v) => {
                proof {
                    reveal_strlit(", ");
                }
                let text = join_strings(v, ", ");
                (text.clone(), text)
            },
        };
        FileProcStatsPrintItem { name: name.to_owned(), human_name: human, value, human_value, raw_string_value }
    }
}


/// The statistics of one run of the scanner.
#[derive(Debug, Clone)]
pub struct FileProcStats {
    pub process_timer: StatsTimer,
    pub scan_timer: StatsTimer,
    pub hash_timer: StatsTimer,
    /// When the run started, in seconds since the Unix epoch.
    pub run_start_time: Option<i64>,
    pub process_start: Option<std::time::Instant>,
    pub process_finish: Option<std::time::Instant>,
    pub scan_start: Option<std::time::Instant>,
    pub scan_finish: Option<std::time::Instant>,
    /// The input paths to scan.
    pub scan_input_paths: Vec<String>,
    /// The number of files matching the input specification.
    pub scan_file_count: usize,
    /// The total size of the files matching the input specification.
    pub scan_file_size: u64,
    /// The number of files that share their size with another file.
    pub scan_size_dupe_file_count: usize,
    /// The total size of the files that share their size with another file.
    pub scan_size_dupe_file_size: u64,
    pub hash_start: Option<std::time::Instant>,
    pub hash_finish: Option<std::time::Instant>,
    /// The number of input files the hash stage processed.
    pub hash_scan_file_count: usize,
    /// The total size of the input files the hash stage processed.
    pub hash_scan_file_size: u64,
    /// Files whose full hash was found in the cache.
    pub hash_cache_hit_full_count: usize,
    /// Files whose partial hash was found in the cache.
    pub hash_cache_hit_partial_count: usize,
    pub hash_gen_partial_count: usize,
    pub hash_gen_partial_duration: Elapsed,
    pub hash_gen_partial_file_size: u64,
    pub hash_gen_full_count: usize,
    pub hash_gen_full_file_size: u64,
    pub hash_gen_full_duration: Elapsed,
    /// Confirmed duplicate files, and their total size.
    pub hash_confirmed_dupe_count: usize,
    pub hash_confirmed_dupe_size: u64,
    /// Distinct files that have duplicates, and their total size.
    pub hash_confirmed_dupe_distinct_count: usize,
    pub hash_confirmed_dupe_distinct_size: u64,
    pub cache_map_to_dupe_vec_start: Option<std::time::Instant>,
    pub cache_map_to_dupe_vec_finish: Option<std::time::Instant>,
    /// Files processed while turning the cache into duplicate records.
    pub cache_map_to_dupe_vec_count: usize,
    pub db_dupe_file_insert_start: Option<std::time::Instant>,
    pub db_dupe_file_insert_finish: Option<std::time::Instant>,
    /// Rows inserted into the duplicate-file table.
    pub db_dupe_file_insert_count: usize,
}

/// Statistics before anything was recorded: no times, zero counters.
pub open spec fn stats_empty(s: FileProcStats) -> bool {
    &&& !s.process_timer@.started() && !s.process_timer@.finished() && s.process_timer@.duration == Elapsed::zero_spec()
    &&& !s.scan_timer@.started() && !s.scan_timer@.finished() && s.scan_timer@.duration == Elapsed::zero_spec()
    &&& !s.hash_timer@.started() && !s.hash_timer@.finished() && s.hash_timer@.duration == Elapsed::zero_spec()
    &&& s.run_start_time is None
    &&& s.process_start is None && s.process_finish is None
    &&& s.scan_start is None && s.scan_finish is None
    &&& s.scan_input_paths@.len() == 0
    &&& s.scan_file_count == 0 && s.scan_file_size == 0
    &&& s.scan_size_dupe_file_count == 0 && s.scan_size_dupe_file_size == 0
    &&& s.hash_start is None && s.hash_finish is None
    &&& s.hash_scan_file_count == 0 && s.hash_scan_file_size == 0
    &&& s.hash_cache_hit_full_count == 0 && s.hash_cache_hit_partial_count == 0
    &&& s.hash_gen_partial_count == 0 && s.hash_gen_partial_duration == Elapsed::zero_spec()
    &&& s.hash_gen_partial_file_size == 0
    &&& s.hash_gen_full_count == 0 && s.hash_gen_full_file_size == 0
    &&& s.hash_gen_full_duration == Elapsed::zero_spec()
    &&& s.hash_confirmed_dupe_count == 0 && s.hash_confirmed_dupe_size == 0
    &&& s.hash_confirmed_dupe_distinct_count == 0 && s.hash_confirmed_dupe_distinct_size == 0
    &&& s.cache_map_to_dupe_vec_start is None && s.cache_map_to_dupe_vec_finish is None
    &&& s.cache_map_to_dupe_vec_count == 0
    &&& s.db_dupe_file_insert_start is None && s.db_dupe_file_insert_finish is None
    &&& s.db_dupe_file_insert_count == 0
}

impl Default for FileProcStats {
    fn default() -> (r: FileProcStats)
        ensures
            stats_empty(r),
    {
        FileProcStats {
            process_timer: StatsTimer::default(),
            scan_timer: StatsTimer::default(),
            hash_timer: StatsTimer::default(),
            run_start_time: None,
            process_start: None,
            process_finish: None,
            scan_start: None,
            scan_finish: None,
            scan_input_paths: Vec::new(),
            scan_file_count: 0,
            scan_file_size: 0,
            scan_size_dupe_file_count: 0,
            scan_size_dupe_file_size: 0,
            hash_start: None,
            hash_finish: None,
            hash_scan_file_count: 0,
            hash_scan_file_size: 0,
            hash_cache_hit_full_count: 0,
            hash_cache_hit_partial_count: 0,
            hash_gen_partial_count: 0,
            hash_gen_partial_duration: Elapsed::zero(),
            hash_gen_partial_file_size: 0,
            hash_gen_full_count: 0,
            hash_gen_full_file_size: 0,
            hash_gen_full_duration: Elapsed::zero(),
            hash_confirmed_dupe_count: 0,
            hash_confirmed_dupe_size: 0,
            hash_confirmed_dupe_distinct_count: 0,
            hash_confirmed_dupe_distinct_size: 0,
            cache_map_to_dupe_vec_start: None,
            cache_map_to_dupe_vec_finish: None,
            cache_map_to_dupe_vec_count: 0,
            db_dupe_file_insert_start: None,
            db_dupe_file_insert_finish: None,
            db_dupe_file_insert_count: 0,
        }
    }
}

/// The span of a stage: the clock's span from its start to its finish when
/// both were recorded, zero otherwise.
pub open spec fn stage_elapsed(start: Option<std::time::Instant>, end: Option<std::time::Instant>, e: Elapsed) -> bool {
    &&& elapsed_wf(e)
    &&& (start is None || end is None) ==> e == Elapsed::zero_spec()
    &&& start matches Some(s) ==> (end matches Some(f) ==> e == instant_span(s, f))
}

/// The keys of the summary rows, in order.
pub open spec fn summary_names() -> Seq<Seq<char>> {
    seq![
        "run_start_time"@,
        "process_duration"@,
        "scan_duration"@,
        "scan_input_paths"@,
        "scan_file_count"@,
        "scan_file_size"@,
        "scan_size_dupe_file_count"@,
        "scan_size_dupe_file_size"@,
        "hash_duration"@,
        "hash_scan_file_count"@,
        "hash_scan_file_size"@,
        "hash_cache_hit_full_count"@,
        "hash_cache_hit_partial_count"@,
        "hash_gen_partial_count"@,
        "hash_gen_partial_duration"@,
        "hash_gen_partial_file_size"@,
        "hash_gen_full_count"@,
        "hash_gen_full_file_size"@,
        "hash_gen_full_duration"@,
        "hash_confirmed_dupe_count"@,
        "hash_confirmed_dupe_size"@,
        "hash_confirmed_dupe_distinct_count"@,
        "hash_confirmed_dupe_distinct_size"@,
        "cache_map_to_dupe_vec_duration"@,
        "cache_map_to_dupe_vec_count"@,
    ]
}

/// The value shown in summary row `i`.
pub open spec fn summary_value(s: FileProcStats, i: int, v: ValueView) -> bool {
    if i == 0 {
        v == ValueView::SystemTime(s.run_start_time.unwrap() as int)
    } else if i == 1 {
        v matches ValueView::Duration(e) && stage_elapsed(s.process_start, s.process_finish, e)
    } else if i == 2 {
        v matches ValueView::Duration(e) && stage_elapsed(s.scan_start, s.scan_finish, e)
    } else if i == 3 {
        v == ValueView::StringVec(s.scan_input_paths@.map_values(|p: String| p@))
    } else if i == 4 {
        v == ValueView::Count(s.scan_file_count as nat)
    } else if i == 5 {
        v == ValueView::FileSize(s.scan_file_size as nat)
    } else if i == 6 {
        v == ValueView::Count(s.scan_size_dupe_file_count as nat)
    } else if i == 7 {
        v == ValueView::FileSize(s.scan_size_dupe_file_size as nat)
    } else if i == 8 {
        v matches ValueView::Duration(e) && stage_elapsed(s.hash_start, s.hash_finish, e)
    } else if i == 9 {
        v == ValueView::Count(s.hash_scan_file_count as nat)
    } else if i == 10 {
        v == ValueView::FileSize(s.hash_scan_file_size as nat)
    } else if i == 11 {
        v == ValueView::Count(s.hash_cache_hit_full_count as nat)
    } else if i == 12 {
        v == ValueView::Count(s.hash_cache_hit_partial_count as nat)
    } else if i == 13 {
        v == ValueView::Count(s.hash_gen_partial_count as nat)
    } else if i == 14 {
        v == ValueView::Duration(s.hash_gen_partial_duration)
    } else if i == 15 {
        v == ValueView::FileSize(s.hash_gen_partial_file_size as nat)
    } else if i == 16 {
        v == ValueView::Count(s.hash_gen_full_count as nat)
    } else if i == 17 {
        v == ValueView::FileSize(s.hash_gen_full_file_size as nat)
    } else if i == 18 {
        v == ValueView::Duration(s.hash_gen_full_duration)
    } else if i == 19 {
        v == ValueView::Count(s.hash_confirmed_dupe_count as nat)
    } else if i == 20 {
        v == ValueView::FileSize(s.hash_confirmed_dupe_size as nat)
    } else if i == 21 {
        v == ValueView::Count(s.hash_confirmed_dupe_distinct_count as nat)
    } else if i == 22 {
        v == ValueView::FileSize(s.hash_confirmed_dupe_distinct_size as nat)
    } else if i == 23 {
        v matches ValueView::Duration(e) && stage_elapsed(s.cache_map_to_dupe_vec_start, s.cache_map_to_dupe_vec_finish, e)
    } else {
        v == ValueView::Count(s.cache_map_to_dupe_vec_count as nat)
    }
}

/// The statistics can be summarized: the run's start time is known and
/// within chrono's calendar, and the recorded hash durations are well formed.
pub open spec fn summarizable(s: FileProcStats) -> bool {
    &&& s.run_start_time matches Some(t) && utc_datetime_text(t as int, datetime_pattern()) is Some
    &&& elapsed_wf(s.hash_gen_partial_duration)
    &&& elapsed_wf(s.hash_gen_full_duration)
}

impl FileProcStats {
    /// The span from `start` to `end` when both were recorded, zero otherwise.
    pub fn get_elapsed(start: &Option<std::time::Instant>, end: &Option<std::time::Instant>) -> (r: Elapsed)
        ensures
            stage_elapsed(*start, *end, r),
    {
        match start {
            Some(s) => match end {
                Some(f) => duration_between(s, f),
                None => Elapsed::zero(),
            },
            None => Elapsed::zero(),
        }
    }

    /// The recorded wall-clock time; it must have been recorded.
    pub fn get_system_time(time: &Option<i64>) -> (r: i64)
        requires
            time is Some,
        ensures
            *time == Some(r),
    {
        time.unwrap()
    }

    /// The summary rows, in the order of `summary_names`.
    #[verifier::rlimit(60)]
    pub fn to_print_items(&self) -> (r: Vec<FileProcStatsPrintItem>)
        requires
            summarizable(*self),
        ensures
            r@.len() == summary_names().len(),
            forall|i: int| 0 <= i < r@.len() ==> #[trigger] item_matches(r@[i], summary_names()[i], None, r@[i].value@)
                && summary_value(*self, i, r@[i].value@),
    {
        let paths = self.scan_input_paths.clone();
        assert(paths@ =~= self.scan_input_paths@);
        let mut items: Vec<FileProcStatsPrintItem> = Vec::new();
        items.push(FileProcStatsPrintItem::new("run_start_time", None, FileProcStatsValueType::SystemTime(FileProcStats::get_system_time(&self.run_start_time))));
        assert(item_matches(items@[0], summary_names()[0], None, items@[0].value@) && summary_value(*self, 0, items@[0].value@));
        items.push(FileProcStatsPrintItem::new("process_duration", None, FileProcStatsValueType::Duration(FileProcStats::get_elapsed(&self.process_start, &self.process_finish))));
        assert(item_matches(items@[1], summary_names()[1], None, items@[1].value@) && summary_value(*self, 1, items@[1].value@));
        items.push(FileProcStatsPrintItem::new("scan_duration", None, FileProcStatsValueType::Duration(FileProcStats::get_elapsed(&self.scan_start, &self.scan_finish))));
        assert(item_matches(items@[2], summary_names()[2], None, items@[2].value@) && summary_value(*self, 2, items@[2].value@));
        items.push(FileProcStatsPrintItem::new("scan_input_paths", None, FileProcStatsValueType::StringVec(paths)));
        assert(item_matches(items@[3], summary_names()[3], None, items@[3].value@) && summary_value(*self, 3, items@[3].value@));
        items.push(FileProcStatsPrintItem::new("scan_file_count", None, FileProcStatsValueType::Count(self.scan_file_count)));
        assert(item_matches(items@[4], summary_names()[4], None, items@[4].value@) && summary_value(*self, 4, items@[4].value@));
        items.push(FileProcStatsPrintItem::new("scan_file_size", None, FileProcStatsValueType::FileSize(self.scan_file_size)));
        assert(item_matches(items@[5], summary_names()[5], None, items@[5].value@) && summary_value(*self, 5, items@[5].value@));
        items.push(FileProcStatsPrintItem::new("scan_size_dupe_file_count", None, FileProcStatsValueType::Count(self.scan_size_dupe_file_count)));
        assert(item_matches(items@[6], summary_names()[6], None, items@[6].value@) && summary_value(*self, 6, items@[6].value@));
        items.push(FileProcStatsPrintItem::new("scan_size_dupe_file_size", None, FileProcStatsValueType::FileSize(self.scan_size_dupe_file_size)));
        assert(item_matches(items@[7], summary_names()[7], None, items@[7].value@) && summary_value(*self, 7, items@[7].value@));
        items.push(FileProcStatsPrintItem::new("hash_duration", None, FileProcStatsValueType::Duration(FileProcStats::get_elapsed(&self.hash_start, &self.hash_finish))));
        assert(item_matches(items@[8], summary_names()[8], None, items@[8].value@) && summary_value(*self, 8, items@[8].value@));
        items.push(FileProcStatsPrintItem::new("hash_scan_file_count", None, FileProcStatsValueType::Count(self.hash_scan_file_count)));
        assert(item_matches(items@[9], summary_names()[9], None, items@[9].value@) && summary_value(*self, 9, items@[9].value@));
        items.push(FileProcStatsPrintItem::new("hash_scan_file_size", None, FileProcStatsValueType::FileSize(self.hash_scan_file_size)));
        assert(item_matches(items@[10], summary_names()[10], None, items@[10].value@) && summary_value(*self, 10, items@[10].value@));
        items.push(FileProcStatsPrintItem::new("hash_cache_hit_full_count", None, FileProcStatsValueType::Count(self.hash_cache_hit_full_count)));
        assert(item_matches(items@[11], summary_names()[11], None, items@[11].value@) && summary_value(*self, 11, items@[11].value@));
        items.push(FileProcStatsPrintItem::new("hash_cache_hit_partial_count", None, FileProcStatsValueType::Count(self.hash_cache_hit_partial_count)));
        assert(item_matches(items@[12], summary_names()[12], None, items@[12].value@) && summary_value(*self, 12, items@[12].value@));
        items.push(FileProcStatsPrintItem::new("hash_gen_partial_count", None, FileProcStatsValueType::Count(self.hash_gen_partial_count)));
        assert(item_matches(items@[13], summary_names()[13], None, items@[13].value@) && summary_value(*self, 13, items@[13].value@));
        items.push(FileProcStatsPrintItem::new("hash_gen_partial_duration", None, FileProcStatsValueType::Duration(self.hash_gen_partial_duration)));
        assert(item_matches(items@[14], summary_names()[14], None, items@[14].value@) && summary_value(*self, 14, items@[14].value@));
        items.push(FileProcStatsPrintItem::new("hash_gen_partial_file_size", None, FileProcStatsValueType::FileSize(self.hash_gen_partial_file_size)));
        assert(item_matches(items@[15], summary_names()[15], None, items@[15].value@) && summary_value(*self, 15, items@[15].value@));
        items.push(FileProcStatsPrintItem::new("hash_gen_full_count", None, FileProcStatsValueType::Count(self.hash_gen_full_count)));
        assert(item_matches(items@[16], summary_names()[16], None, items@[16].value@) && summary_value(*self, 16, items@[16].value@));
        items.push(FileProcStatsPrintItem::new("hash_gen_full_file_size", None, FileProcStatsValueType::FileSize(self.hash_gen_full_file_size)));
        assert(item_matches(items@[17], summary_names()[17], None, items@[17].value@) && summary_value(*self, 17, items@[17].value@));
        items.push(FileProcStatsPrintItem::new("hash_gen_full_duration", None, FileProcStatsValueType::Duration(self.hash_gen_full_duration)));
        assert(item_matches(items@[18], summary_names()[18], None, items@[18].value@) && summary_value(*self, 18, items@[18].value@));
        items.push(FileProcStatsPrintItem::new("hash_confirmed_dupe_count", None, FileProcStatsValueType::Count(self.hash_confirmed_dupe_count)));
        assert(item_matches(items@[19], summary_names()[19], None, items@[19].value@) && summary_value(*self, 19, items@[19].value@));
        items.push(FileProcStatsPrintItem::new("hash_confirmed_dupe_size", None, FileProcStatsValueType::FileSize(self.hash_confirmed_dupe_size)));
        assert(item_matches(items@[20], summary_names()[20], None, items@[20].value@) && summary_value(*self, 20, items@[20].value@));
        items.push(FileProcStatsPrintItem::new("hash_confirmed_dupe_distinct_count", None, FileProcStatsValueType::Count(self.hash_confirmed_dupe_distinct_count)));
        assert(item_matches(items@[21], summary_names()[21], None, items@[21].value@) && summary_value(*self, 21, items@[21].value@));
        items.push(FileProcStatsPrintItem::new("hash_confirmed_dupe_distinct_size", None, FileProcStatsValueType::FileSize(self.hash_confirmed_dupe_distinct_size)));
        assert(item_matches(items@[22], summary_names()[22], None, items@[22].value@) && summary_value(*self, 22, items@[22].value@));
        items.push(FileProcStatsPrintItem::new("cache_map_to_dupe_vec_duration", None, FileProcStatsValueType::Duration(FileProcStats::get_elapsed(&self.cache_map_to_dupe_vec_start, &self.cache_map_to_dupe_vec_finish))));
        assert(item_matches(items@[23], summary_names()[23], None, items@[23].value@) && summary_value(*self, 23, items@[23].value@));
        items.push(FileProcStatsPrintItem::new("cache_map_to_dupe_vec_count", None, FileProcStatsValueType::Count(self.cache_map_to_dupe_vec_count)));
        assert(item_matches(items@[24], summary_names()[24], None, items@[24].value@) && summary_value(*self, 24, items@[24].value@));
        items
    }
}

impl FileProcStats {
    /// The summary rows when the statistics can be summarized (see
    /// `summarizable`), `None` otherwise.
    pub fn try_to_print_items(&self) -> (r: Option<Vec<FileProcStatsPrintItem>>)
        ensures
            r is Some <==> summarizable(*self),
            r matches Some(items) ==> items@.len() == summary_names().len() && forall|i: int|
                0 <= i < items@.len() ==> #[trigger] item_matches(items@[i], summary_names()[i], None, items@[i].value@)
                    && summary_value(*self, i, items@[i].value@),
    {
        if self.hash_gen_partial_duration.nanos >= NANOS_PER_SECOND || self.hash_gen_full_duration.nanos
            >= NANOS_PER_SECOND {
            return None;
        }
        match self.run_start_time {
            None => None,
            Some(t) => {
                proof {
                    reveal_strlit("%Y-%m-%d %H:%M:%S");
                }
                match format_utc_seconds(t, "%Y-%m-%d %H:%M:%S") {
                    None => None,
                    Some(_) => Some(self.to_print_items()),
                }
            },
        }
    }
}

} // verus!
