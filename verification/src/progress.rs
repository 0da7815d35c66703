//! Latest-value coalescing of scan progress events.
//!
//! Progress observations arrive far more often than a client wants to see
//! them. The coalescer keeps only the newest pending value and releases it
//! at most once per `PROGRESS_EVENT_INTERVAL_NANOS`, numbering every release.
use vstd::prelude::*;

verus! {

/// Minimum spacing between two emitted progress events (100 ms).
pub const PROGRESS_EVENT_INTERVAL_NANOS: u64 = 100_000_000;

/// One released progress value together with its emission metadata.
#[derive(Clone, Debug, PartialEq, Eq)]
pub struct Coalesced<T> {
    pub sequence: u64,
    pub emitted_at_nanos: u64,
    pub cancelling: bool,
    pub value: T,
}

/// Keeps the latest submitted value and releases it at a bounded rate.
#[derive(Debug)]
pub struct LatestValueCoalescer<T> {
    pending: Option<T>,
    last_emitted_nanos: Option<u64>,
    next_sequence: u64,
    cancelling: bool,
    terminal: bool,
}

/// The abstract state of a coalescer.
pub struct CoalescerState<T> {
    pub pending: Option<T>,
    pub last_emitted_nanos: Option<u64>,
    pub next_sequence: u64,
    pub cancelling: bool,
    pub terminal: bool,
}

/// The operations a coalescer offers, used to state properties of whole traces.
pub enum CoalescerOp<T> {
    Submit(T, bool),
    Latch(bool),
    TakeDue(u64),
    Terminate,
}

impl<T> View for LatestValueCoalescer<T> {
    type V = CoalescerState<T>;

    closed spec fn view(&self) -> CoalescerState<T> {
        CoalescerState {
            pending: self.pending,
            last_emitted_nanos: self.last_emitted_nanos,
            next_sequence: self.next_sequence,
            cancelling: self.cancelling,
            terminal: self.terminal,
        }
    }
}

/// Well-formedness: sequence numbers start at one, and a terminal coalescer
/// holds nothing.
pub open spec fn coalescer_wf<T>(s: CoalescerState<T>) -> bool {
    &&& s.next_sequence >= 1
    &&& s.terminal ==> s.pending is None
}

/// The state of a freshly created coalescer.
pub open spec fn initial_state<T>() -> CoalescerState<T> {
    CoalescerState {
        pending: None,
        last_emitted_nanos: None,
        next_sequence: 1,
        cancelling: false,
        terminal: false,
    }
}

/// `submit`: ignored once terminal; otherwise latches `cancelling` and
/// replaces the pending value.
pub open spec fn submit_state<T>(s: CoalescerState<T>, value: T, cancelling: bool) -> CoalescerState<T> {
    if s.terminal {
        s
    } else {
        CoalescerState { pending: Some(value), cancelling: s.cancelling || cancelling, ..s }
    }
}

/// `latch_cancelling`: the cancelling flag only ever turns on.
pub open spec fn latch_state<T>(s: CoalescerState<T>, cancelling: bool) -> CoalescerState<T> {
    CoalescerState { cancelling: s.cancelling || cancelling, ..s }
}

/// `terminate`: discards the pending value and stops all later emissions.
pub open spec fn terminate_state<T>(s: CoalescerState<T>) -> CoalescerState<T> {
    CoalescerState { pending: None, terminal: true, ..s }
}

/// Whether a pending value may be released at `now` (the interval since the
/// previous emission has elapsed, with a clock that ran backwards counting
/// as no time elapsed).
pub open spec fn interval_elapsed<T>(s: CoalescerState<T>, now: u64) -> bool {
    match s.last_emitted_nanos {
        None => true,
        Some(last) => now >= last && now - last >= PROGRESS_EVENT_INTERVAL_NANOS,
    }
}

/// `take_due`: the state after the call and what it releases.
pub open spec fn take_due_state<T>(s: CoalescerState<T>, now: u64) -> (CoalescerState<T>, Option<Coalesced<T>>) {
    if s.terminal || s.pending is None || !interval_elapsed(s, now) {
        (s, None)
    } else if s.next_sequence == u64::MAX {
        (CoalescerState { pending: None, terminal: true, ..s }, None)
    } else {
        (
            CoalescerState {
                pending: None,
                last_emitted_nanos: Some(now),
                next_sequence: (s.next_sequence + 1) as u64,
                ..s
            },
            Some(Coalesced {
                sequence: s.next_sequence,
                emitted_at_nanos: now,
                cancelling: s.cancelling,
                value: s.pending->0,
            }),
        )
    }
}

/// `next_due_nanos`: when a pending value may next be released.
pub open spec fn next_due_spec<T>(s: CoalescerState<T>) -> Option<u64> {
    if s.terminal || s.pending is None {
        None
    } else {
        match s.last_emitted_nanos {
            None => Some(0u64),
            Some(last) => Some(
                if last + PROGRESS_EVENT_INTERVAL_NANOS > u64::MAX {
                    u64::MAX
                } else {
                    (last + PROGRESS_EVENT_INTERVAL_NANOS) as u64
                },
            ),
        }
    }
}

/// One operation applied to a state.
pub open spec fn apply_op<T>(s: CoalescerState<T>, op: CoalescerOp<T>) -> (CoalescerState<T>, Option<Coalesced<T>>) {
    match op {
        CoalescerOp::Submit(value, cancelling) => (submit_state(s, value, cancelling), None),
        CoalescerOp::Latch(cancelling) => (latch_state(s, cancelling), None),
        CoalescerOp::TakeDue(now) => take_due_state(s, now),
        CoalescerOp::Terminate => (terminate_state(s), None),
    }
}

/// The state reached after a trace of operations and the values released on the way.
pub open spec fn run_ops<T>(s: CoalescerState<T>, ops: Seq<CoalescerOp<T>>) -> (CoalescerState<T>, Seq<Coalesced<T>>)
    decreases ops.len(),
{
    if ops.len() == 0 {
        (s, Seq::empty())
    } else {
        let (mid, emitted) = run_ops(s, ops.drop_last());
        let (next, released) = apply_op(mid, ops.last());
        match released {
            Some(e) => (next, emitted.push(e)),
            None => (next, emitted),
        }
    }
}

/// Consecutive emissions carry increasing sequence numbers and are at least
/// one interval apart.
pub open spec fn emissions_spaced<T>(emitted: Seq<Coalesced<T>>) -> bool {
    forall|i: int|
        0 <= i < emitted.len() - 1 ==> {
            &&& #[trigger] emitted[i].sequence < emitted[i + 1].sequence
            &&& emitted[i].emitted_at_nanos + PROGRESS_EVENT_INTERVAL_NANOS <= emitted[i + 1].emitted_at_nanos
        }
}

/// Whether an emission falls in the half-open window `[start, start + 1s)`.
pub open spec fn in_window<T>(e: Coalesced<T>, start: int) -> bool {
    start <= e.emitted_at_nanos && e.emitted_at_nanos < start + 1_000_000_000
}

/// The number of emissions in the half-open window `[start, start + 1s)`.
pub open spec fn count_in_window<T>(emitted: Seq<Coalesced<T>>, start: int) -> nat
    decreases emitted.len(),
{
    if emitted.len() == 0 {
        0
    } else {
        count_in_window(emitted.drop_last(), start) + if in_window(emitted.last(), start) {
            1nat
        } else {
            0nat
        }
    }
}

impl<T> Default for LatestValueCoalescer<T> {
    fn default() -> (r: Self)
        ensures
            r@ == initial_state::<T>(),
            coalescer_wf(r@),
    {
        LatestValueCoalescer {
            pending: None,
            last_emitted_nanos: None,
            next_sequence: 1,
            cancelling: false,
            terminal: false,
        }
    }
}

impl<T> LatestValueCoalescer<T> {
    /// Replaces the pending value (latest wins) unless the coalescer is terminal.
    pub fn submit(&mut self, value: T, cancelling: bool)
        requires
            coalescer_wf(old(self)@),
        ensures
            final(self)@ == submit_state(old(self)@, value, cancelling),
            coalescer_wf(final(self)@),
    {
        if self.terminal {
            return ;
        }
        self.cancelling = self.cancelling || cancelling;
        self.pending = Some(value);
    }

    /// Submits a value and immediately releases whatever is due at `now_nanos`.
    pub fn offer(&mut self, now_nanos: u64, value: T, cancelling: bool) -> (r: Option<Coalesced<T>>)
        requires
            coalescer_wf(old(self)@),
        ensures
            (final(self)@, r) == take_due_state(submit_state(old(self)@, value, cancelling), now_nanos),
            coalescer_wf(final(self)@),
    {
        self.submit(value, cancelling);
        self.take_due(now_nanos)
    }

    /// Latches the cancelling flag; it is never cleared.
    pub fn latch_cancelling(&mut self, cancelling: bool)
        requires
            coalescer_wf(old(self)@),
        ensures
            final(self)@ == latch_state(old(self)@, cancelling),
            coalescer_wf(final(self)@),
    {
        self.cancelling = self.cancelling || cancelling;
    }

    /// Releases the pending value if one is held and the interval since the
    /// last emission has elapsed. When the sequence numbers are exhausted the
    /// coalescer becomes terminal instead.
    pub fn take_due(&mut self, now_nanos: u64) -> (r: Option<Coalesced<T>>)
        requires
            coalescer_wf(old(self)@),
        ensures
            (final(self)@, r) == take_due_state(old(self)@, now_nanos),
            coalescer_wf(final(self)@),
    {
        if self.terminal || self.pending.is_none() {
            return None;
        }
        match self.last_emitted_nanos {
            Some(last) => {
                let elapsed = if now_nanos >= last { now_nanos - last } else { 0 };
                if elapsed < PROGRESS_EVENT_INTERVAL_NANOS {
                    return None;
                }
            },
            None => {},
        }
        let sequence = self.next_sequence;
        if sequence == u64::MAX {
            self.pending = None;
            self.terminal = true;
            return None;
        }
        self.next_sequence = sequence + 1;
        self.last_emitted_nanos = Some(now_nanos);
        let value = self.pending.take();
        match value {
            Some(v) => Some(Coalesced { sequence, emitted_at_nanos: now_nanos, cancelling: self.cancelling, value: v }),
            None => None,
        }
    }

    /// The earliest time at which the pending value may be released, if any.
    pub fn next_due_nanos(&self) -> (r: Option<u64>)
        ensures
            r == next_due_spec(self@),
    {
        if self.terminal || self.pending.is_none() {
            return None;
        }
        match self.last_emitted_nanos {
            None => Some(0),
            Some(last) => Some(last.saturating_add(PROGRESS_EVENT_INTERVAL_NANOS)),
        }
    }

    pub fn is_terminal(&self) -> (r: bool)
        ensures
            r == self@.terminal,
    {
        self.terminal
    }

    /// Stops the coalescer for good and discards the pending value.
    pub fn terminate(&mut self)
        requires
            coalescer_wf(old(self)@),
        ensures
            final(self)@ == terminate_state(old(self)@),
            coalescer_wf(final(self)@),
    {
        self.pending = None;
        self.terminal = true;
    }
}

/// Every operation keeps a coalescer well formed.
pub proof fn lemma_ops_preserve_wf<T>(s: CoalescerState<T>, ops: Seq<CoalescerOp<T>>)
    requires
        coalescer_wf(s),
    ensures
        coalescer_wf(run_ops(s, ops).0),
    decreases ops.len(),
{
    if ops.len() > 0 {
        lemma_ops_preserve_wf(s, ops.drop_last());
    }
}

/// Over any trace of operations, the released values carry strictly
/// increasing sequence numbers, are at least one interval apart, and the
/// state remembers the last release.
pub proof fn lemma_run_emissions_spaced<T>(s: CoalescerState<T>, ops: Seq<CoalescerOp<T>>)
    ensures
        ({
            let (f, emitted) = run_ops(s, ops);
            &&& emissions_spaced(emitted)
            &&& emitted.len() == 0 ==> f.last_emitted_nanos == s.last_emitted_nanos && f.next_sequence == s.next_sequence
            &&& emitted.len() > 0 ==> {
                &&& f.last_emitted_nanos == Some(emitted.last().emitted_at_nanos)
                &&& f.next_sequence == emitted.last().sequence + 1
                &&& emitted[0].sequence >= s.next_sequence
            }
        }),
    decreases ops.len(),
{
    if ops.len() > 0 {
        lemma_run_emissions_spaced(s, ops.drop_last());
        let (mid, emitted) = run_ops(s, ops.drop_last());
        let (next, released) = apply_op(mid, ops.last());
        match released {
            Some(e) => {
                let all = emitted.push(e);
                assert(all.last() == e);
                if emitted.len() > 0 {
                    assert(all[emitted.len() - 1] == emitted.last());
                }
                assert forall|i: int| 0 <= i < all.len() - 1 implies {
                    &&& #[trigger] all[i].sequence < all[i + 1].sequence
                    &&& all[i].emitted_at_nanos + PROGRESS_EVENT_INTERVAL_NANOS <= all[i + 1].emitted_at_nanos
                } by {
                    if i < emitted.len() - 1 {
                        assert(all[i] == emitted[i]);
                        assert(all[i + 1] == emitted[i + 1]);
                    }
                }
                assert(all[0].sequence >= s.next_sequence);
            },
            None => {},
        }
    }
}

/// Inductive step of the per-window bound: with spacing, the `c` emissions
/// inside a window end at least `(c - 1)` intervals after its start.
proof fn lemma_window_count_progress<T>(emitted: Seq<Coalesced<T>>, start: int)
    requires
        emissions_spaced(emitted),
    ensures
        count_in_window(emitted, start) > 0 ==> emitted.last().emitted_at_nanos >= start + (count_in_window(emitted, start) - 1) * PROGRESS_EVENT_INTERVAL_NANOS,
        count_in_window(emitted, start) > 0 ==> exists|i: int|
            0 <= i < emitted.len() && #[trigger] in_window(emitted[i], start)
                && emitted[i].emitted_at_nanos >= start + (count_in_window(emitted, start) - 1) * PROGRESS_EVENT_INTERVAL_NANOS,
    decreases emitted.len(),
{
    if emitted.len() > 0 {
        let prefix = emitted.drop_last();
        assert(emissions_spaced(prefix)) by {
            assert forall|i: int| 0 <= i < prefix.len() - 1 implies {
                &&& #[trigger] prefix[i].sequence < prefix[i + 1].sequence
                &&& prefix[i].emitted_at_nanos + PROGRESS_EVENT_INTERVAL_NANOS <= prefix[i + 1].emitted_at_nanos
            } by {
                assert(prefix[i] == emitted[i]);
                assert(prefix[i + 1] == emitted[i + 1]);
            }
        }
        lemma_window_count_progress(prefix, start);
        let c = count_in_window(prefix, start);
        let e = emitted.last();
        if prefix.len() > 0 {
            let k = emitted.len() - 2;
            assert(prefix.last() == emitted[k]);
            assert(emitted[k].sequence < emitted[k + 1].sequence);
            assert(emitted[k].emitted_at_nanos + PROGRESS_EVENT_INTERVAL_NANOS <= emitted[emitted.len() - 1].emitted_at_nanos);
        }
        if c > 0 {
            let w = choose|i: int|
                0 <= i < prefix.len() && #[trigger] in_window(prefix[i], start)
                    && prefix[i].emitted_at_nanos >= start + (c - 1) * PROGRESS_EVENT_INTERVAL_NANOS;
            assert(emitted[w] == prefix[w]);
            assert(in_window(emitted[w], start));
        }
        if in_window(e, start) {
            assert(in_window(emitted[emitted.len() - 1], start));
        }
    }
}

/// At most ten spaced emissions fit in any half-open one-second window.
pub proof fn lemma_spaced_emissions_per_second<T>(emitted: Seq<Coalesced<T>>, start: int)
    requires
        emissions_spaced(emitted),
    ensures
        count_in_window(emitted, start) <= 10,
{
    lemma_window_count_progress(emitted, start);
}

/// Whatever is submitted and whenever `take_due` is called, a coalescer
/// releases at most ten values in every half-open second, with strictly
/// increasing sequence numbers.
pub proof fn lemma_run_at_most_ten_per_second<T>(s: CoalescerState<T>, ops: Seq<CoalescerOp<T>>, start: int)
    ensures
        emissions_spaced(run_ops(s, ops).1),
        count_in_window(run_ops(s, ops).1, start) <= 10,
{
    lemma_run_emissions_spaced(s, ops);
    lemma_spaced_emissions_per_second(run_ops(s, ops).1, start);
}

/// Once terminal, a coalescer stays terminal, holds nothing and releases nothing.
pub proof fn lemma_terminal_is_final<T>(s: CoalescerState<T>, ops: Seq<CoalescerOp<T>>)
    requires
        s.terminal,
        coalescer_wf(s),
    ensures
        run_ops(s, ops).0.terminal,
        run_ops(s, ops).0.pending is None,
        run_ops(s, ops).1.len() == 0,
    decreases ops.len(),
{
    if ops.len() > 0 {
        lemma_terminal_is_final(s, ops.drop_last());
    }
}

/// The cancelling flag is sticky: once set, no operation clears it.
pub proof fn lemma_cancelling_is_sticky<T>(s: CoalescerState<T>, ops: Seq<CoalescerOp<T>>)
    requires
        s.cancelling,
    ensures
        run_ops(s, ops).0.cancelling,
    decreases ops.len(),
{
    if ops.len() > 0 {
        lemma_cancelling_is_sticky(s, ops.drop_last());
    }
}

/// Latest wins: a release carries the most recently submitted value, and
/// carries the cancelling flag if any earlier submission asked for it.
pub proof fn lemma_latest_submission_wins<T>(s: CoalescerState<T>, v1: T, c1: bool, v2: T, c2: bool, now: u64)
    requires
        !s.terminal,
    ensures
        take_due_state(submit_state(submit_state(s, v1, c1), v2, c2), now).1 matches Some(e) ==> e.value == v2
            && (e.cancelling == (s.cancelling || c1 || c2)),
{
}

} // verus!
