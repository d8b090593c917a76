//! The event loop that fills a batch and decides when it is exported.

use vstd::prelude::*;
use vstd::string::*;
use crate::analytics::traits::{Batch, BatchFactory};

verus! {

#[derive(Debug, Clone, Copy, PartialEq, Eq, Structural)]
pub enum CollectionError {
    DataChannelOverflow,
    DataChannelClosed,
}

impl CollectionError {
    pub open spec fn text(self) -> Seq<char> {
        match self {
            CollectionError::DataChannelOverflow => "Data channel overflow"@,
            CollectionError::DataChannelClosed => "Data channel closed"@,
        }
    }

    pub fn to_string(&self) -> (s: String)
        ensures
            s@ == self.text(),
    {
        match self {
            CollectionError::DataChannelOverflow => String::from_str("Data channel overflow"),
            CollectionError::DataChannelClosed => String::from_str("Data channel closed"),
        }
    }

    /// The error for a refused hand-over to the data queue: overflow when the
    /// queue is full, closed when its far end is gone.
    pub fn from_send_failure(full: bool) -> (e: Self)
        ensures
            e == if full {
                CollectionError::DataChannelOverflow
            } else {
                CollectionError::DataChannelClosed
            },
    {
        if full {
            CollectionError::DataChannelOverflow
        } else {
            CollectionError::DataChannelClosed
        }
    }
}

/// Durations are in milliseconds.
#[derive(Debug, Clone, Copy, PartialEq, Eq, Structural)]
pub struct CollectorConfig {
    /// Data collection queue capacity. Overflowing the queue would cause
    /// excess data to be dropped.
    pub data_queue_capacity: usize,
    /// Maximum interval between batch data exports.
    pub export_interval: u64,
}

impl Default for CollectorConfig {
    fn default() -> (config: Self)
        ensures
            config == (CollectorConfig { data_queue_capacity: 8192, export_interval: 300000 }),
    {
        CollectorConfig { data_queue_capacity: 8192, export_interval: 300000 }
    }
}

/// What wakes the event loop.
pub enum Event<T> {
    /// An event arrived on the data queue.
    Data(T),
    /// The data queue has closed.
    Closed,
    /// The export interval has elapsed.
    Tick,
}

/// What the event loop does after an event.
pub struct Step<B> {
    /// A batch to serialize and hand to the exporter.
    pub export: Option<B>,
    /// Whether the export interval starts anew.
    pub reset_interval: bool,
    /// Whether the loop ends.
    pub stop: bool,
}

/// Puts a newly created batch in the place of the current one and hands the
/// current one back; where none was created, the current batch stays and the
/// factory's error is handed on.
pub fn install<B, E>(current_batch: &mut B, created: Result<B, E>) -> (r: Result<B, E>)
    ensures
        match created {
            Ok(next_batch) => *final(current_batch) == next_batch && r == Ok::<B, E>(
                *old(current_batch),
            ),
            Err(err) => *final(current_batch) == *old(current_batch) && r == Err::<B, E>(err),
        },
{
    match created {
        Ok(next_batch) => {
            let mut previous = next_batch;
            std::mem::swap(current_batch, &mut previous);
            Ok(previous)
        },
        Err(err) => Err(err),
    }
}

pub struct EventLoop<B, E> {
    pub batch_factory: B,
    pub exporter: E,
    pub config: CollectorConfig,
}

impl<B, E> EventLoop<B, E> {
    pub fn new(batch_factory: B, exporter: E, config: CollectorConfig) -> (event_loop: Self)
        ensures
            event_loop.batch_factory == batch_factory,
            event_loop.exporter == exporter,
            event_loop.config == config,
    {
        EventLoop { batch_factory, exporter, config }
    }

    /// Puts a fresh batch in the place of the current one and hands the
    /// current one back. Where the factory fails the current batch stays.
    /// The factory decides whether a batch is created; what is then done with
    /// its answer is [`install`].
    pub fn replace_batch<T>(&self, current_batch: &mut B::Batch) -> (r: Result<B::Batch, B::Error>) where
        B: BatchFactory<T>,

        ensures
            self.batch_factory.infallible() ==> r is Ok,
            r is Ok ==> r->Ok_0 == *old(current_batch) && self.batch_factory.creates(
                *final(current_batch),
            ),
            r is Err ==> *final(current_batch) == *old(current_batch),
    {
        let created = self.batch_factory.create();
        install(current_batch, created)
    }

    /// Takes the current batch out for export, unless it is empty: an empty
    /// batch stays and nothing is exported.
    pub fn export_batch<T>(&self, current_batch: &mut B::Batch) -> (r: Result<
        Option<B::Batch>,
        B::Error,
    >) where B: BatchFactory<T>
        ensures
            old(current_batch).empty() ==> r is Ok && r->Ok_0 is None && *final(current_batch)
                == *old(current_batch),
            !old(current_batch).empty() && r is Ok ==> r->Ok_0 == Some(*old(current_batch)),
            r is Err ==> *final(current_batch) == *old(current_batch),
    {
        if current_batch.is_empty() {
            return Ok(None);
        }
        match self.replace_batch(current_batch) {
            Ok(previous) => Ok(Some(previous)),
            Err(err) => Err(err),
        }
    }

    /// What follows a push to the current batch. A failed push is taken as
    /// transient: the broken batch is replaced and dropped, and the interval
    /// starts anew. A batch that is full after the push is exported, and the
    /// interval starts anew. Otherwise nothing happens.
    pub fn after_push<T>(&self, current_batch: &mut B::Batch, pushed: bool) -> (r: Result<
        Step<B::Batch>,
        B::Error,
    >) where B: BatchFactory<T>
        ensures
            r is Ok ==> !r->Ok_0.stop,
            r is Err ==> *final(current_batch) == *old(current_batch),
            !pushed && r is Ok ==> r->Ok_0.export is None && r->Ok_0.reset_interval,
            pushed && !old(current_batch).full() ==> r is Ok && r->Ok_0.export is None
                && !r->Ok_0.reset_interval && *final(current_batch) == *old(current_batch),
            pushed && old(current_batch).full() && old(current_batch).empty() ==> r is Ok
                && r->Ok_0.export is None && r->Ok_0.reset_interval && *final(current_batch)
                == *old(current_batch),
            pushed && old(current_batch).full() && !old(current_batch).empty() && r is Ok
                ==> r->Ok_0.export == Some(*old(current_batch)) && r->Ok_0.reset_interval,
    {
        if !pushed {
            match self.replace_batch(current_batch) {
                Ok(_) => Ok(Step { export: None, reset_interval: true, stop: false }),
                Err(err) => Err(err),
            }
        } else if current_batch.is_full() {
            match self.export_batch(current_batch) {
                Ok(export) => Ok(Step { export, reset_interval: true, stop: false }),
                Err(err) => Err(err),
            }
        } else {
            Ok(Step { export: None, reset_interval: false, stop: false })
        }
    }

    /// What follows the close of the data queue (`closed`) or a tick of the
    /// export interval: the current batch is exported, and the loop ends when
    /// the queue has closed.
    pub fn after_wait<T>(&self, current_batch: &mut B::Batch, closed: bool) -> (r: Result<
        Step<B::Batch>,
        B::Error,
    >) where B: BatchFactory<T>
        ensures
            r is Ok ==> r->Ok_0.stop == closed && !r->Ok_0.reset_interval,
            r is Err ==> *final(current_batch) == *old(current_batch),
            old(current_batch).empty() ==> r is Ok && r->Ok_0.export is None
                && *final(current_batch) == *old(current_batch),
            !old(current_batch).empty() && r is Ok ==> r->Ok_0.export == Some(*old(current_batch)),
    {
        match self.export_batch(current_batch) {
            Ok(export) => Ok(Step { export, reset_interval: false, stop: closed }),
            Err(err) => Err(err),
        }
    }

    /// One turn of the event loop: an event is pushed to the current batch and
    /// [`EventLoop::after_push`] follows; the close of the queue and a tick
    /// are followed by [`EventLoop::after_wait`]. A factory that fails to
    /// create the next batch ends the loop with its error.
    pub fn on_event<T>(&self, current_batch: &mut B::Batch, event: Event<T>) -> (r: Result<
        Step<B::Batch>,
        B::Error,
    >) where B: BatchFactory<T>
        ensures
            match event {
                Event::Data(_) => r is Ok ==> !r->Ok_0.stop && (r->Ok_0.export is Some
                    ==> r->Ok_0.reset_interval),
                Event::Closed => r is Ok ==> r->Ok_0.stop && !r->Ok_0.reset_interval,
                Event::Tick => r is Ok ==> !r->Ok_0.stop && !r->Ok_0.reset_interval,
            },
            !(event is Data) && old(current_batch).empty() ==> r is Ok && r->Ok_0.export is None
                && *final(current_batch) == *old(current_batch),
            !(event is Data) && !old(current_batch).empty() && r is Ok ==> r->Ok_0.export
                == Some(*old(current_batch)),
            !(event is Data) && r is Err ==> *final(current_batch) == *old(current_batch),
    {
        match event {
            Event::Data(data) => {
                let pushed = current_batch.push(data).is_ok();
                self.after_push(current_batch, pushed)
            },
            Event::Closed => self.after_wait(current_batch, true),
            Event::Tick => self.after_wait(current_batch, false),
        }
    }
}

} // verus!
