//! Per-actor performance metrics: message counts, processing times, uptime
//! and the time of the last activity.
//!
//! Durations are whole nanoseconds; a single recorded duration is capped at
//! `u64::MAX` nanoseconds (about 584 years) and the running totals wrap on
//! overflow, as the accumulating counters of the runtime do. Timestamps are
//! milliseconds since the UNIX epoch.

use crate::clock::{duration_nanos, instant_now, nanos_since, unix_time_millis};
use std::time::{Duration, Instant};
use vstd::prelude::*;

verus! {

/// `x + y` modulo 2^64.
pub open spec fn wrap_add(x: u64, y: u64) -> u64 {
    if x + y > u64::MAX {
        (x + y - 0x1_0000_0000_0000_0000) as u64
    } else {
        (x + y) as u64
    }
}

/// A duration in nanoseconds, capped at `u64::MAX`.
pub open spec fn capped_nanos(nanos: u128) -> u64 {
    if nanos > u64::MAX as u128 {
        u64::MAX
    } else {
        nanos as u64
    }
}

/// Count, total and maximum processing time of one kind of work (regular
/// messages, priority messages or idle events).
#[derive(Debug, Clone, Copy)]
pub struct ProcessingStats {
    /// Number of completed units of work.
    pub count: u64,
    /// Sum of their processing times in nanoseconds (wrapping).
    pub total_nanos: u64,
    /// Longest processing time observed, in nanoseconds.
    pub max_nanos: u64,
}

impl ProcessingStats {
    /// The statistics after one more unit of work that took `nanos`.
    pub open spec fn recorded(self, nanos: u128) -> ProcessingStats {
        let d = capped_nanos(nanos);
        ProcessingStats {
            count: wrap_add(self.count, 1),
            total_nanos: wrap_add(self.total_nanos, d),
            max_nanos: if d > self.max_nanos { d } else { self.max_nanos },
        }
    }

    /// The average processing time: zero before any work, otherwise the
    /// total divided by the count, clamped to the maximum.
    pub open spec fn average(self) -> u64 {
        if self.count == 0 {
            0
        } else if self.total_nanos / self.count > self.max_nanos {
            self.max_nanos
        } else {
            (self.total_nanos / self.count) as u64
        }
    }

    /// The statistics before any work.
    pub open spec fn zero() -> ProcessingStats {
        ProcessingStats { count: 0, total_nanos: 0, max_nanos: 0 }
    }

    /// No work recorded yet.
    pub fn new() -> (r: Self)
        ensures
            r == ProcessingStats::zero(),
    {
        ProcessingStats { count: 0, total_nanos: 0, max_nanos: 0 }
    }

    /// Records one unit of work that took `nanos` nanoseconds.
    pub fn record(&mut self, nanos: u128)
        ensures
            *final(self) == old(self).recorded(nanos),
    {
        let d: u64 = if nanos > u64::MAX as u128 {
            u64::MAX
        } else {
            nanos as u64
        };
        self.count = self.count.wrapping_add(1);
        self.total_nanos = self.total_nanos.wrapping_add(d);
        if d > self.max_nanos {
            self.max_nanos = d;
        }
    }

    /// The average processing time, clamped to the maximum.
    pub fn average_nanos(&self) -> (r: u64)
        ensures
            r == self.average(),
            r <= self.max_nanos,
            self.count == 0 ==> r == 0,
            self.count > 0 && self.total_nanos < (self.max_nanos + 1) * self.count ==> r
                * self.count <= self.total_nanos < (r + 1) * self.count,
            self.count > 0 && self.total_nanos >= (self.max_nanos + 1) * self.count ==> r
                == self.max_nanos,
    {
        proof {
            lemma_average_is_quotient(*self);
        }
        match self.total_nanos.checked_div(self.count) {
            Some(avg) => {
                if avg > self.max_nanos {
                    self.max_nanos
                } else {
                    avg
                }
            },
            None => 0,
        }
    }
}

/// Recording a unit of work counts it (by one, modulo 2^64), never lowers
/// the maximum, raises the maximum to at least the recorded duration, and
/// keeps the average at or below the maximum.
pub proof fn lemma_recording(s: ProcessingStats, nanos: u128)
    ensures
        s.recorded(nanos).count == wrap_add(s.count, 1),
        s.count < u64::MAX ==> s.recorded(nanos).count == s.count + 1,
        s.recorded(nanos).max_nanos == if capped_nanos(nanos) > s.max_nanos {
            capped_nanos(nanos)
        } else {
            s.max_nanos
        },
        s.recorded(nanos).max_nanos >= s.max_nanos,
        s.recorded(nanos).max_nanos >= capped_nanos(nanos),
        s.recorded(nanos).average() <= s.recorded(nanos).max_nanos,
        s.average() <= s.max_nanos,
{
}

/// The average is the total divided by the count, rounded down, unless that
/// exceeds the maximum, when it is the maximum: with `n` units of work and a
/// total `t`, the average `a` satisfies `a * n <= t < (a + 1) * n` whenever
/// the total is below `(max + 1) * n`, and is the maximum otherwise. Before
/// any work it is zero.
pub proof fn lemma_average_is_quotient(s: ProcessingStats)
    ensures
        s.count == 0 ==> s.average() == 0,
        s.count > 0 && s.total_nanos < (s.max_nanos + 1) * s.count ==> s.average() * s.count
            <= s.total_nanos < (s.average() + 1) * s.count,
        s.count > 0 && s.total_nanos >= (s.max_nanos + 1) * s.count ==> s.average()
            == s.max_nanos,
        s.average() <= s.max_nanos,
{
    if s.count > 0 {
        let n = s.count as int;
        let t = s.total_nanos as int;
        let m = s.max_nanos as int;
        let q = t / n;
        assert(q * n <= t < (q + 1) * n) by (nonlinear_arith)
            requires
                n > 0,
                t >= 0,
                q == t / n,
        ;
        assert(t < (m + 1) * n ==> q <= m) by (nonlinear_arith)
            requires
                n > 0,
                q * n <= t,
        ;
        assert(t >= (m + 1) * n ==> q > m) by (nonlinear_arith)
            requires
                n > 0,
                t < (q + 1) * n,
        ;
    }
}

/// The statistics after recording each duration of `ds` in turn.
pub open spec fn recorded_all(s: ProcessingStats, ds: Seq<u128>) -> ProcessingStats
    decreases ds.len(),
{
    if ds.len() == 0 {
        s
    } else {
        recorded_all(s, ds.drop_last()).recorded(ds.last())
    }
}

/// The sum of the (capped) durations of `ds`.
pub open spec fn capped_sum(ds: Seq<u128>) -> int
    decreases ds.len(),
{
    if ds.len() == 0 {
        0
    } else {
        capped_sum(ds.drop_last()) + capped_nanos(ds.last())
    }
}

/// Recording durations from zero counts each of them and totals them: as long
/// as the total fits in 64 bits, after `d1, ..., dn` the count is `n`, the
/// total is `d1 + ... + dn` and the maximum is at least each of them (and
/// one of them when there is any), so the average is `(d1 + ... + dn) / n`
/// whenever that does not exceed the maximum.
pub proof fn lemma_recording_all(ds: Seq<u128>)
    requires
        capped_sum(ds) <= u64::MAX,
        ds.len() < u64::MAX,
    ensures
        recorded_all(ProcessingStats::zero(), ds).count == ds.len(),
        recorded_all(ProcessingStats::zero(), ds).total_nanos == capped_sum(ds),
        forall|i: int| 0 <= i < ds.len() ==> recorded_all(ProcessingStats::zero(), ds).max_nanos
            >= capped_nanos(#[trigger] ds[i]),
        ds.len() > 0 ==> exists|i: int| 0 <= i < ds.len() && recorded_all(ProcessingStats::zero(), ds).max_nanos
            == capped_nanos(#[trigger] ds[i]),
        ds.len() == 0 ==> recorded_all(ProcessingStats::zero(), ds).max_nanos == 0,
    decreases ds.len(),
{
    if ds.len() > 0 {
        let prev = ds.drop_last();
        assert(capped_sum(prev) <= capped_sum(ds));
        lemma_recording_all(prev);
        let p = recorded_all(ProcessingStats::zero(), prev);
        assert forall|i: int| 0 <= i < ds.len() implies recorded_all(ProcessingStats::zero(), ds).max_nanos
            >= capped_nanos(#[trigger] ds[i]) by {
            if i < prev.len() {
                assert(ds[i] == prev[i]);
            }
        }
        if prev.len() == 0 {
            assert(recorded_all(ProcessingStats::zero(), ds).max_nanos == capped_nanos(ds[0]));
        } else {
            let j = choose|j: int| 0 <= j < prev.len() && p.max_nanos == capped_nanos(#[trigger] prev[j]);
            assert(ds[j] == prev[j]);
            assert(ds[ds.len() - 1] == ds.last());
        }
    }
}

/// Immutable snapshot of actor metrics at a point in time.
#[derive(Debug, Clone)]
pub struct MetricsSnapshot {
    /// Total number of messages successfully processed by this actor.
    pub message_count: u64,
    /// Average time spent processing each message, in nanoseconds (zero
    /// before the first message).
    pub avg_processing_time: u64,
    /// Maximum time spent processing any single message, in nanoseconds.
    pub max_processing_time: u64,
    /// Total number of priority messages processed by this actor.
    pub priority_message_count: u64,
    /// Average time spent processing each priority message, in nanoseconds.
    pub avg_priority_processing_time: u64,
    /// Maximum time spent processing any single priority message, in nanoseconds.
    pub max_priority_processing_time: u64,
    /// Time elapsed since the actor was started, in nanoseconds.
    pub uptime: u128,
    /// Time of the last processing completion, in milliseconds since the
    /// UNIX epoch; `None` if nothing has been processed yet.
    pub last_activity: Option<u64>,
}

impl Default for MetricsSnapshot {
    fn default() -> (r: Self)
        ensures
            r.message_count == 0,
            r.avg_processing_time == 0,
            r.max_processing_time == 0,
            r.priority_message_count == 0,
            r.avg_priority_processing_time == 0,
            r.max_priority_processing_time == 0,
            r.uptime == 0,
            r.last_activity is None,
    {
        MetricsSnapshot {
            message_count: 0,
            avg_processing_time: 0,
            max_processing_time: 0,
            priority_message_count: 0,
            avg_priority_processing_time: 0,
            max_priority_processing_time: 0,
            uptime: 0,
            last_activity: None,
        }
    }
}

/// The abstract state of a metrics collector.
pub struct MetricsState {
    pub regular: ProcessingStats,
    pub priority: ProcessingStats,
    pub idle: ProcessingStats,
    /// Last activity as milliseconds since the UNIX epoch; zero for none.
    pub last_activity_millis: u64,
    /// When the collector was created.
    pub start_instant: Instant,
    /// When the actor's start-up completed, once it has.
    pub started_at: Option<Instant>,
}

/// Per-actor metrics storage.
#[derive(Debug)]
pub struct MetricsCollector {
    regular: ProcessingStats,
    priority: ProcessingStats,
    idle: ProcessingStats,
    last_activity_millis: u64,
    start_instant: Instant,
    started_at: Option<Instant>,
}

/// The stored last-activity value for a clock reading: the milliseconds
/// since the epoch, capped at `u64::MAX`, or zero for a clock before the
/// epoch.
pub open spec fn activity_millis(reading: Option<u128>) -> u64 {
    match reading {
        Some(ms) => if ms > u64::MAX as u128 {
            u64::MAX
        } else {
            ms as u64
        },
        None => 0,
    }
}

/// The kind of work a recording counts.
#[derive(Debug, Clone, Copy)]
pub enum WorkKind {
    /// A regular message.
    Message,
    /// A priority message.
    PriorityMessage,
    /// An idle event.
    IdleEvent,
}

/// The state after recording one unit of `kind` that took `nanos`, with the
/// wall clock reading `reading`: that kind's statistics count it and the
/// last activity becomes the reading.
pub open spec fn after_record(
    s: MetricsState,
    kind: WorkKind,
    nanos: u128,
    reading: Option<u128>,
) -> MetricsState {
    MetricsState {
        regular: if kind is Message {
            s.regular.recorded(nanos)
        } else {
            s.regular
        },
        priority: if kind is PriorityMessage {
            s.priority.recorded(nanos)
        } else {
            s.priority
        },
        idle: if kind is IdleEvent {
            s.idle.recorded(nanos)
        } else {
            s.idle
        },
        last_activity_millis: activity_millis(reading),
        ..s
    }
}

/// The state after a sequence of recordings, each a kind, a duration and a
/// clock reading, in order.
pub open spec fn after_records(s: MetricsState, calls: Seq<(WorkKind, u128, Option<u128>)>) -> MetricsState
    decreases calls.len(),
{
    if calls.len() == 0 {
        s
    } else {
        let c = calls.last();
        after_record(after_records(s, calls.drop_last()), c.0, c.1, c.2)
    }
}

/// The last activity is that of the latest recording: after a sequence of
/// recordings it is the latest one's clock reading, and the start state's
/// value when there was none. Starting from no activity, with clock
/// readings after the epoch, there is an activity exactly when something
/// was recorded.
pub proof fn lemma_last_activity_is_latest(s: MetricsState, calls: Seq<(WorkKind, u128, Option<u128>)>)
    ensures
        calls.len() == 0 ==> after_records(s, calls).last_activity_millis == s.last_activity_millis,
        calls.len() > 0 ==> after_records(s, calls).last_activity_millis == activity_millis(
            calls.last().2,
        ),
        s.last_activity_millis == 0 && (forall|i: int|
            0 <= i < calls.len() ==> ((#[trigger] calls[i]).2 matches Some(ms) && ms > 0)) ==> (
        after_records(s, calls).last_activity_millis == 0 <==> calls.len() == 0),
{
    if calls.len() > 0 {
        assert(calls[calls.len() - 1] == calls.last());
    }
}

impl View for MetricsCollector {
    type V = MetricsState;

    closed spec fn view(&self) -> MetricsState {
        MetricsState {
            regular: self.regular,
            priority: self.priority,
            idle: self.idle,
            last_activity_millis: self.last_activity_millis,
            start_instant: self.start_instant,
            started_at: self.started_at,
        }
    }
}

impl MetricsCollector {
    /// Creates a new metrics collector with all counters at zero.
    pub fn new() -> (r: Self)
        ensures
            r@.regular == ProcessingStats::zero(),
            r@.priority == ProcessingStats::zero(),
            r@.idle == ProcessingStats::zero(),
            r@.last_activity_millis == 0,
            r@.started_at is None,
    {
        MetricsCollector {
            regular: ProcessingStats::new(),
            priority: ProcessingStats::new(),
            idle: ProcessingStats::new(),
            last_activity_millis: 0,
            start_instant: instant_now(),
            started_at: None,
        }
    }

    /// Marks the moment the actor's start-up completed, which becomes the
    /// baseline for [`uptime`](Self::uptime). Only the first call takes
    /// effect.
    pub fn mark_started(&mut self)
        ensures
            final(self)@.regular == old(self)@.regular,
            final(self)@.priority == old(self)@.priority,
            final(self)@.idle == old(self)@.idle,
            final(self)@.last_activity_millis == old(self)@.last_activity_millis,
            final(self)@.start_instant == old(self)@.start_instant,
            final(self)@.started_at is Some,
            old(self)@.started_at is Some ==> final(self)@.started_at == old(self)@.started_at,
    {
        let now = instant_now();
        self.mark_started_at(now);
    }

    /// Marks start-up completion at the monotonic reading `now`: the first
    /// call makes `now` the uptime baseline, later calls change nothing.
    pub fn mark_started_at(&mut self, now: Instant)
        ensures
            final(self)@.regular == old(self)@.regular,
            final(self)@.priority == old(self)@.priority,
            final(self)@.idle == old(self)@.idle,
            final(self)@.last_activity_millis == old(self)@.last_activity_millis,
            final(self)@.start_instant == old(self)@.start_instant,
            final(self)@.started_at == match old(self)@.started_at {
                Some(s) => Some(s),
                None => Some(now),
            },
    {
        if self.started_at.is_none() {
            self.started_at = Some(now);
        }
    }

    /// The instant uptime is measured from: the start-up completion once
    /// recorded, otherwise the collector's creation.
    pub fn uptime_baseline(&self) -> (t: Instant)
        ensures
            t == match self@.started_at {
                Some(s) => s,
                None => self@.start_instant,
            },
    {
        match self.started_at {
            Some(s) => s,
            None => self.start_instant,
        }
    }

    /// Stores the time of the latest activity from a wall-clock reading
    /// (milliseconds since the epoch, `None` for a clock before the epoch).
    pub fn record_activity_at(&mut self, reading: Option<u128>)
        ensures
            final(self)@.last_activity_millis == activity_millis(reading),
            final(self)@.regular == old(self)@.regular,
            final(self)@.priority == old(self)@.priority,
            final(self)@.idle == old(self)@.idle,
            final(self)@.start_instant == old(self)@.start_instant,
            final(self)@.started_at == old(self)@.started_at,
    {
        self.last_activity_millis = match reading {
            Some(ms) => if ms > u64::MAX as u128 {
                u64::MAX
            } else {
                ms as u64
            },
            None => 0,
        };
    }

    /// Updates the last activity timestamp to now: it becomes the stored
    /// value of the clock reading taken.
    fn update_last_activity(&mut self) -> (reading: Option<u128>)
        ensures
            final(self)@.last_activity_millis == activity_millis(reading),
            exists|reading: Option<u128>| #[trigger] activity_millis(reading)
                == final(self)@.last_activity_millis,
            final(self)@.regular == old(self)@.regular,
            final(self)@.priority == old(self)@.priority,
            final(self)@.idle == old(self)@.idle,
            final(self)@.start_instant == old(self)@.start_instant,
            final(self)@.started_at == old(self)@.started_at,
    {
        let reading = unix_time_millis();
        self.record_activity_at(reading);
        reading
    }

    /// Records a completed regular message that took `nanos` nanoseconds,
    /// finished when the wall clock read `reading`.
    pub fn record_message_at(&mut self, nanos: u128, reading: Option<u128>)
        ensures
            final(self)@ == after_record(old(self)@, WorkKind::Message, nanos, reading),
    {
        self.regular.record(nanos);
        self.record_activity_at(reading);
    }

    /// Records a completed priority message that took `nanos` nanoseconds,
    /// finished when the wall clock read `reading`.
    pub fn record_priority_message_at(&mut self, nanos: u128, reading: Option<u128>)
        ensures
            final(self)@ == after_record(old(self)@, WorkKind::PriorityMessage, nanos, reading),
    {
        self.priority.record(nanos);
        self.record_activity_at(reading);
    }

    /// Records a completed idle-event dispatch that took `nanos`
    /// nanoseconds, finished when the wall clock read `reading`.
    pub fn record_idle_event_at(&mut self, nanos: u128, reading: Option<u128>)
        ensures
            final(self)@ == after_record(old(self)@, WorkKind::IdleEvent, nanos, reading),
    {
        self.idle.record(nanos);
        self.record_activity_at(reading);
    }

    /// Records a completed regular message that took `nanos` nanoseconds:
    /// counts it, adds it to the total, raises the maximum if it was slower
    /// and updates the last activity time to now. Returns the wall-clock
    /// reading taken (milliseconds since the epoch, `None` for a clock before
    /// the epoch), which is what the last activity now holds.
    pub fn record_message(&mut self, nanos: u128) -> (reading: Option<u128>)
        ensures
            final(self)@ == after_record(old(self)@, WorkKind::Message, nanos, reading),
            exists|reading: Option<u128>| final(self)@ == #[trigger] after_record(
                old(self)@,
                WorkKind::Message,
                nanos,
                reading,
            ),
            final(self)@.regular == old(self)@.regular.recorded(nanos),
            final(self)@.priority == old(self)@.priority,
            final(self)@.idle == old(self)@.idle,
            final(self)@.start_instant == old(self)@.start_instant,
            final(self)@.started_at == old(self)@.started_at,
    {
        self.regular.record(nanos);
        let reading = self.update_last_activity();
        assert(self@ == after_record(old(self)@, WorkKind::Message, nanos, reading));
        reading
    }

    /// Records a completed priority message; priority messages are counted
    /// apart from regular ones. Returns the wall-clock reading taken, which
    /// the last activity now holds.
    pub fn record_priority_message(&mut self, nanos: u128) -> (reading: Option<u128>)
        ensures
            final(self)@ == after_record(old(self)@, WorkKind::PriorityMessage, nanos, reading),
            exists|reading: Option<u128>| final(self)@ == #[trigger] after_record(
                old(self)@,
                WorkKind::PriorityMessage,
                nanos,
                reading,
            ),
            final(self)@.priority == old(self)@.priority.recorded(nanos),
            final(self)@.regular == old(self)@.regular,
            final(self)@.idle == old(self)@.idle,
            final(self)@.start_instant == old(self)@.start_instant,
            final(self)@.started_at == old(self)@.started_at,
    {
        self.priority.record(nanos);
        let reading = self.update_last_activity();
        assert(self@ == after_record(old(self)@, WorkKind::PriorityMessage, nanos, reading));
        reading
    }

    /// Records a completed idle-event dispatch. Returns the wall-clock
    /// reading taken, which the last activity now holds.
    pub fn record_idle_event(&mut self, nanos: u128) -> (reading: Option<u128>)
        ensures
            final(self)@ == after_record(old(self)@, WorkKind::IdleEvent, nanos, reading),
            exists|reading: Option<u128>| final(self)@ == #[trigger] after_record(
                old(self)@,
                WorkKind::IdleEvent,
                nanos,
                reading,
            ),
            final(self)@.idle == old(self)@.idle.recorded(nanos),
            final(self)@.regular == old(self)@.regular,
            final(self)@.priority == old(self)@.priority,
            final(self)@.start_instant == old(self)@.start_instant,
            final(self)@.started_at == old(self)@.started_at,
    {
        self.idle.record(nanos);
        let reading = self.update_last_activity();
        assert(self@ == after_record(old(self)@, WorkKind::IdleEvent, nanos, reading));
        reading
    }

    /// The last activity time, or `None` before any activity.
    fn get_last_activity(&self) -> (r: Option<u64>)
        ensures
            self@.last_activity_millis == 0 ==> r is None,
            self@.last_activity_millis != 0 ==> r == Some(self@.last_activity_millis),
    {
        if self.last_activity_millis == 0 {
            None
        } else {
            Some(self.last_activity_millis)
        }
    }

    /// A snapshot of the current metrics. Each average is clamped to the
    /// corresponding maximum.
    pub fn snapshot(&self) -> (r: MetricsSnapshot)
        ensures
            r.message_count == self@.regular.count,
            r.avg_processing_time == self@.regular.average(),
            r.max_processing_time == self@.regular.max_nanos,
            r.priority_message_count == self@.priority.count,
            r.avg_priority_processing_time == self@.priority.average(),
            r.max_priority_processing_time == self@.priority.max_nanos,
            r.avg_processing_time <= r.max_processing_time,
            r.avg_priority_processing_time <= r.max_priority_processing_time,
            self@.last_activity_millis == 0 ==> r.last_activity is None,
            self@.last_activity_millis != 0 ==> r.last_activity == Some(self@.last_activity_millis),
            exists|d: Duration| r.uptime == #[trigger] duration_nanos(d),
    {
        MetricsSnapshot {
            message_count: self.regular.count,
            avg_processing_time: self.regular.average_nanos(),
            max_processing_time: self.regular.max_nanos,
            priority_message_count: self.priority.count,
            avg_priority_processing_time: self.priority.average_nanos(),
            max_priority_processing_time: self.priority.max_nanos,
            uptime: self.uptime(),
            last_activity: self.get_last_activity(),
        }
    }

    /// Returns the total number of messages processed.
    pub fn message_count(&self) -> (r: u64)
        ensures
            r == self@.regular.count,
    {
        self.regular.count
    }

    /// Returns the average processing time per message, clamped to the
    /// maximum.
    pub fn avg_processing_time(&self) -> (r: u64)
        ensures
            r == self@.regular.average(),
            r <= self@.regular.max_nanos,
    {
        self.regular.average_nanos()
    }

    /// Returns the maximum processing time observed.
    pub fn max_processing_time(&self) -> (r: u64)
        ensures
            r == self@.regular.max_nanos,
    {
        self.regular.max_nanos
    }

    /// Returns the total number of priority messages processed.
    pub fn priority_message_count(&self) -> (r: u64)
        ensures
            r == self@.priority.count,
    {
        self.priority.count
    }

    /// Returns the average priority message processing time.
    pub fn avg_priority_processing_time(&self) -> (r: u64)
        ensures
            r == self@.priority.average(),
            r <= self@.priority.max_nanos,
    {
        self.priority.average_nanos()
    }

    /// Returns the maximum priority message processing time observed.
    pub fn max_priority_processing_time(&self) -> (r: u64)
        ensures
            r == self@.priority.max_nanos,
    {
        self.priority.max_nanos
    }

    /// Returns the total number of idle events dispatched.
    pub fn idle_event_count(&self) -> (r: u64)
        ensures
            r == self@.idle.count,
    {
        self.idle.count
    }

    /// Returns the average idle-event processing time.
    pub fn avg_idle_processing_time(&self) -> (r: u64)
        ensures
            r == self@.idle.average(),
            r <= self@.idle.max_nanos,
    {
        self.idle.average_nanos()
    }

    /// Returns the maximum idle-event processing time observed.
    pub fn max_idle_processing_time(&self) -> (r: u64)
        ensures
            r == self@.idle.max_nanos,
    {
        self.idle.max_nanos
    }

    /// Returns the uptime in nanoseconds since the actor's start-up
    /// completed (or since the collector was created, before that).
    pub fn uptime(&self) -> (r: u128)
        ensures
            exists|d: Duration| r == #[trigger] duration_nanos(d),
    {
        let baseline = self.uptime_baseline();
        nanos_since(&baseline)
    }

    /// Returns the last activity time in milliseconds since the UNIX epoch.
    pub fn last_activity(&self) -> (r: Option<u64>)
        ensures
            self@.last_activity_millis == 0 ==> r is None,
            self@.last_activity_millis != 0 ==> r == Some(self@.last_activity_millis),
    {
        self.get_last_activity()
    }
}

impl Default for MetricsCollector {
    fn default() -> (r: Self)
        ensures
            r@.regular == ProcessingStats::zero(),
            r@.priority == ProcessingStats::zero(),
            r@.idle == ProcessingStats::zero(),
            r@.last_activity_millis == 0,
            r@.started_at is None,
    {
        Self::new()
    }
}

} // verus!
