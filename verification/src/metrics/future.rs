//! Bookkeeping of a metered future. Instants and durations are in
//! milliseconds; the caller owns the clock and the metric handles.

use vstd::prelude::*;

verus! {

/// Name and value of a metric label.
#[derive(Debug, Clone, Copy, PartialEq, Eq)]
pub struct Label {
    pub key: &'static str,
    pub value: &'static str,
}

/// Creates a new label identifying a future by its name.
pub fn future_name(s: &'static str) -> (label: Label)
    ensures
        label.key@ == "future_name"@,
        label.value == s,
{
    Label { key: "future_name", value: s }
}

/// What a metric measures with.
#[derive(Debug, Clone, Copy, PartialEq, Eq, Structural)]
pub enum MetricKind {
    Counter,
    Gauge,
    Histogram,
}

/// A metric to register: its name, its kind and its labels.
#[derive(Debug, Clone, Copy, PartialEq, Eq)]
pub struct MetricKey {
    pub name: &'static str,
    pub kind: MetricKind,
    pub labels: &'static [Label],
}

impl MetricKey {
    /// The key is of the kind `kind`, named `name` and labelled `labels`.
    pub open spec fn holds(self, kind: MetricKind, name: Seq<char>, labels: &'static [Label]) -> bool {
        self.kind == kind && self.name@ == name && self.labels == labels
    }
}

/// The metrics collected during the execution of a future.
#[derive(Debug, Clone, Copy, PartialEq, Eq)]
pub struct Metrics {
    pub duration: MetricKey,
    pub cancelled_duration: MetricKey,
    pub created: MetricKey,
    pub started: MetricKey,
    pub finished: MetricKey,
    pub cancelled: MetricKey,
    pub in_flight: MetricKey,
    pub poll_duration: MetricKey,
    pub poll_duration_max: MetricKey,
    pub polls: MetricKey,
}

impl Metrics {
    /// The ten metrics of a future, all with the same labels: durations are
    /// histograms, counts are counters, the futures in flight and the longest
    /// poll are gauges.
    pub fn new(labels: &'static [Label]) -> (metrics: Self)
        ensures
            metrics.duration.holds(MetricKind::Histogram, "future_duration"@, labels),
            metrics.cancelled_duration.holds(
                MetricKind::Histogram,
                "future_cancelled_duration"@,
                labels,
            ),
            metrics.created.holds(MetricKind::Counter, "futures_created_count"@, labels),
            metrics.started.holds(MetricKind::Counter, "futures_started_count"@, labels),
            metrics.finished.holds(MetricKind::Counter, "futures_finished_count"@, labels),
            metrics.cancelled.holds(MetricKind::Counter, "futures_cancelled_count"@, labels),
            metrics.in_flight.holds(MetricKind::Gauge, "futures_in_flight"@, labels),
            metrics.poll_duration.holds(MetricKind::Histogram, "future_poll_duration"@, labels),
            metrics.poll_duration_max.holds(MetricKind::Gauge, "future_poll_duration_max"@, labels),
            metrics.polls.holds(MetricKind::Counter, "future_polls_count"@, labels),
    {
        Metrics {
            duration: MetricKey { name: "future_duration", kind: MetricKind::Histogram, labels },
            cancelled_duration: MetricKey {
                name: "future_cancelled_duration",
                kind: MetricKind::Histogram,
                labels,
            },
            created: MetricKey { name: "futures_created_count", kind: MetricKind::Counter, labels },
            started: MetricKey { name: "futures_started_count", kind: MetricKind::Counter, labels },
            finished: MetricKey {
                name: "futures_finished_count",
                kind: MetricKind::Counter,
                labels,
            },
            cancelled: MetricKey {
                name: "futures_cancelled_count",
                kind: MetricKind::Counter,
                labels,
            },
            in_flight: MetricKey { name: "futures_in_flight", kind: MetricKind::Gauge, labels },
            poll_duration: MetricKey {
                name: "future_poll_duration",
                kind: MetricKind::Histogram,
                labels,
            },
            poll_duration_max: MetricKey {
                name: "future_poll_duration_max",
                kind: MetricKind::Gauge,
                labels,
            },
            polls: MetricKey { name: "future_polls_count", kind: MetricKind::Counter, labels },
        }
    }
}

/// What one poll of a metered future adds to the metrics.
#[derive(Debug, Clone, Copy, PartialEq, Eq, Structural)]
pub struct PollReport {
    /// This was the first poll: count a started future and one more in
    /// flight.
    pub started: bool,
    /// The future finished with this poll, after this time since its first
    /// poll: count a finished future and record the duration.
    pub finished: Option<u64>,
}

/// What dropping a metered future adds to the metrics. One future less is in
/// flight in any case.
#[derive(Debug, Clone, Copy, PartialEq, Eq, Structural)]
pub struct DropReport {
    /// The future was dropped before it finished.
    pub cancelled: bool,
    /// Time between the first poll and the drop of a cancelled future that
    /// was polled at all.
    pub cancelled_duration: Option<u64>,
    pub poll_duration_sum: u64,
    pub poll_duration_max: u64,
    pub polls_count: u64,
}

/// Execution state of a metered future.
#[derive(Debug, Clone, Copy, PartialEq, Eq, Structural)]
pub struct Metered {
    pub started_at: Option<u64>,
    pub is_finished: bool,
    pub poll_duration_sum: u64,
    pub poll_duration_max: u64,
    pub polls_count: u64,
}

/// `a - b`, or zero where `b` is the larger.
pub open spec fn elapsed(a: u64, b: u64) -> u64 {
    if a >= b {
        (a - b) as u64
    } else {
        0
    }
}

/// `a + b`, capped at the largest value.
pub open spec fn capped_sum(a: u64, b: u64) -> u64 {
    if a + b > u64::MAX {
        u64::MAX
    } else {
        (a + b) as u64
    }
}

impl Metered {
    /// The state of a future that has been created and not polled yet.
    pub fn new() -> (state: Self)
        ensures
            state == (Metered {
                started_at: None,
                is_finished: false,
                poll_duration_sum: 0,
                poll_duration_max: 0,
                polls_count: 0,
            }),
    {
        Metered {
            started_at: None,
            is_finished: false,
            poll_duration_sum: 0,
            poll_duration_max: 0,
            polls_count: 0,
        }
    }

    /// Accounts for one poll that began at `poll_started_at`, ended at
    /// `poll_ended_at` and found the future ready or not.
    pub fn poll(&mut self, poll_started_at: u64, poll_ended_at: u64, ready: bool) -> (report:
        PollReport)
        ensures
            report.started == (old(self).started_at is None),
            final(self).started_at == Some(
                match old(self).started_at {
                    Some(at) => at,
                    None => poll_started_at,
                },
            ),
            final(self).is_finished == (old(self).is_finished || ready),
            final(self).poll_duration_sum == capped_sum(
                old(self).poll_duration_sum,
                elapsed(poll_ended_at, poll_started_at),
            ),
            final(self).poll_duration_max == if old(self).poll_duration_max >= elapsed(
                poll_ended_at,
                poll_started_at,
            ) {
                old(self).poll_duration_max
            } else {
                elapsed(poll_ended_at, poll_started_at)
            },
            final(self).polls_count == capped_sum(old(self).polls_count, 1),
            report.finished == if ready {
                Some(elapsed(poll_ended_at, final(self).started_at.unwrap()))
            } else {
                None
            },
    {
        let started = self.started_at.is_none();
        let started_at = match self.started_at {
            Some(at) => at,
            None => poll_started_at,
        };
        self.started_at = Some(started_at);
        let poll_duration = poll_ended_at.saturating_sub(poll_started_at);
        self.poll_duration_sum = self.poll_duration_sum.saturating_add(poll_duration);
        if poll_duration > self.poll_duration_max {
            self.poll_duration_max = poll_duration;
        }
        self.polls_count = self.polls_count.saturating_add(1);
        let finished = if ready {
            self.is_finished = true;
            Some(poll_ended_at.saturating_sub(started_at))
        } else {
            None
        };
        PollReport { started, finished }
    }

    /// Whether the future has finished.
    pub fn is_terminated(&self) -> (r: bool)
        ensures
            r == self.is_finished,
    {
        self.is_finished
    }

    /// Accounts for the drop of the future at `now`.
    pub fn drop(&self, now: u64) -> (report: DropReport)
        ensures
            report == (DropReport {
                cancelled: !self.is_finished,
                cancelled_duration: if !self.is_finished && self.started_at is Some {
                    Some(elapsed(now, self.started_at.unwrap()))
                } else {
                    None
                },
                poll_duration_sum: self.poll_duration_sum,
                poll_duration_max: self.poll_duration_max,
                polls_count: self.polls_count,
            }),
    {
        let cancelled_duration = if !self.is_finished {
            match self.started_at {
                Some(at) => Some(now.saturating_sub(at)),
                None => None,
            }
        } else {
            None
        };
        DropReport {
            cancelled: !self.is_finished,
            cancelled_duration,
            poll_duration_sum: self.poll_duration_sum,
            poll_duration_max: self.poll_duration_max,
            polls_count: self.polls_count,
        }
    }
}

/// Tracks task execution related metrics. Durations are in milliseconds.
pub trait TaskMetricsRecorder {
    fn record_task_started(&self) {
    }

    fn record_task_finished(
        &self,
        _total_duration: u64,
        _poll_duration: u64,
        _poll_entries: u64,
        _completed: bool,
    ) {
    }
}

/// Task name tagging using a static string.
pub trait AsTaskName {
    fn as_task_name(&self) -> &'static str;
}

impl AsTaskName for () {
    fn as_task_name(&self) -> (name: &'static str)
        ensures
            name@ == ""@,
    {
        ""
    }
}

impl AsTaskName for &'static str {
    fn as_task_name(&self) -> (name: &'static str)
        ensures
            name == *self,
    {
        *self
    }
}

/// Execution state of a task whose metrics go to the recorder `R`.
pub struct TaskMetricsFuture<R> {
    pub started: u64,
    pub completed: bool,
    pub poll_duration: u64,
    pub poll_entries: u64,
    pub recorder: R,
}

/// What is recorded when a task is dropped.
#[derive(Debug, Clone, Copy, PartialEq, Eq, Structural)]
pub struct TaskReport {
    pub total_duration: u64,
    pub poll_duration: u64,
    pub poll_entries: u64,
    pub completed: bool,
}

impl<R: TaskMetricsRecorder> TaskMetricsFuture<R> {
    /// Records the start of a task at `now`.
    pub fn new(recorder: R, now: u64) -> (task: Self)
        ensures
            task.started == now,
            !task.completed,
            task.poll_duration == 0,
            task.poll_entries == 0,
            task.recorder == recorder,
    {
        recorder.record_task_started();
        TaskMetricsFuture { started: now, completed: false, poll_duration: 0, poll_entries: 0, recorder }
    }

    /// Accounts for one poll that began at `poll_start`, ended at `poll_end`
    /// and found the task ready or not.
    pub fn poll(&mut self, poll_start: u64, poll_end: u64, ready: bool)
        ensures
            final(self).started == old(self).started,
            final(self).recorder == old(self).recorder,
            final(self).completed == (old(self).completed || ready),
            final(self).poll_entries == capped_sum(old(self).poll_entries, 1),
            final(self).poll_duration == capped_sum(
                old(self).poll_duration,
                elapsed(poll_end, poll_start),
            ),
    {
        if ready {
            self.completed = true;
        }
        self.poll_entries = self.poll_entries.saturating_add(1);
        self.poll_duration = self.poll_duration.saturating_add(poll_end.saturating_sub(poll_start));
    }

    /// Records the end of the task at `now` and says what was recorded.
    pub fn finish(&self, now: u64) -> (report: TaskReport)
        ensures
            report == (TaskReport {
                total_duration: elapsed(now, self.started),
                poll_duration: self.poll_duration,
                poll_entries: self.poll_entries,
                completed: self.completed,
            }),
    {
        let total_duration = now.saturating_sub(self.started);
        self.recorder.record_task_finished(
            total_duration,
            self.poll_duration,
            self.poll_entries,
            self.completed,
        );
        TaskReport {
            total_duration,
            poll_duration: self.poll_duration,
            poll_entries: self.poll_entries,
            completed: self.completed,
        }
    }
}

} // verus!
