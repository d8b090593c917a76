//! Batches bounded by size, row count and age.

use vstd::prelude::*;
use vstd::string::*;

verus! {

/// Durations are in milliseconds.
#[derive(Debug, Clone, Copy, PartialEq, Eq, Structural)]
pub struct BatchOpts {
    /// Data collection queue size. Overflowing it drops additional events.
    pub event_queue_limit: usize,
    /// The amount of time after which the current batch is exported
    /// regardless of how much data it has collected.
    pub export_time_threshold: u64,
    /// Writer buffer size threshold, reaching which causes data export and
    /// a new batch.
    pub export_size_threshold: usize,
    /// The maximum number of events that a single batch can contain.
    /// Reaching it causes data export and a new batch.
    pub export_row_threshold: usize,
    /// Allocation size for the batch data buffer.
    pub batch_alloc_size: usize,
    /// The interval at which the background task checks whether the current
    /// batch has expired and needs to be exported.
    pub export_check_interval: u64,
}

impl BatchOpts {
    pub open spec fn standard() -> BatchOpts {
        BatchOpts {
            event_queue_limit: 2048,
            export_time_threshold: 300000,
            export_size_threshold: 134217728,
            export_row_threshold: 131072,
            batch_alloc_size: 136314880,
            export_check_interval: 30000,
        }
    }
}

impl Default for BatchOpts {
    fn default() -> (opts: Self)
        ensures
            opts == BatchOpts::standard(),
    {
        BatchOpts {
            event_queue_limit: 2048,
            export_time_threshold: 300000,
            export_size_threshold: 134217728,
            export_row_threshold: 131072,
            batch_alloc_size: 136314880,
            export_check_interval: 30000,
        }
    }
}

/// Failure of a batching collector; `T` is the writer's error.
#[derive(Debug, Clone, PartialEq, Eq)]
pub enum BatchError<T> {
    EventQueueOverflow,
    EventQueueChannelClosed,
    Writer(T),
    Export(String),
}

impl<T> BatchError<T> {
    /// The error for a refused hand-over to the event queue: overflow when
    /// the queue is full, closed when its far end is gone.
    pub fn from_send_failure(full: bool) -> (e: Self)
        ensures
            full ==> e is EventQueueOverflow,
            !full ==> e is EventQueueChannelClosed,
    {
        if full {
            BatchError::EventQueueOverflow
        } else {
            BatchError::EventQueueChannelClosed
        }
    }
}

/// Byte buffer that counts what was written to it.
#[derive(Debug, Clone, PartialEq, Eq)]
pub struct BatchBuffer {
    pub data: Vec<u8>,
    pub size_bytes: usize,
}

impl BatchBuffer {
    /// The count is the length of the data.
    pub open spec fn well_formed(self) -> bool {
        self.size_bytes == self.data@.len()
    }

    pub fn new(capacity: usize) -> (buffer: Self)
        ensures
            buffer.well_formed(),
            buffer.data@.len() == 0,
    {
        BatchBuffer { data: Vec::with_capacity(capacity), size_bytes: 0 }
    }

    pub fn into_inner(self) -> (data: Vec<u8>)
        ensures
            data == self.data,
    {
        self.data
    }

    pub fn size_bytes(&self) -> (size: usize)
        ensures
            size == self.size_bytes,
    {
        self.size_bytes
    }

    /// Appends `buf` and returns its length.
    pub fn write(&mut self, buf: &[u8]) -> (written: usize)
        requires
            old(self).well_formed(),
        ensures
            final(self).well_formed(),
            final(self).data@ == old(self).data@ + buf@,
            written == buf@.len(),
    {
        self.data.extend_from_slice(buf);
        self.size_bytes = self.data.len();
        buf.len()
    }
}

/// Row count, size and age of the batch being filled.
#[derive(Debug, Clone, Copy, PartialEq, Eq, Structural)]
pub struct Batcher {
    pub opts: BatchOpts,
    pub num_rows: usize,
    /// Instant at which the batch expires; `None` until the first event.
    pub expiration: Option<u64>,
}

impl Batcher {
    pub fn new(opts: BatchOpts) -> (batcher: Self)
        ensures
            batcher == (Batcher { opts, num_rows: 0, expiration: None }),
    {
        Batcher { opts, num_rows: 0, expiration: None }
    }

    pub fn has_data(&self) -> (r: bool)
        ensures
            r == (self.num_rows > 0),
    {
        self.num_rows > 0
    }

    /// The batch has an expiration and `now` lies after it.
    pub fn is_expired(&self, now: u64) -> (r: bool)
        ensures
            r == (self.expiration is Some && now > self.expiration.unwrap()),
    {
        match self.expiration {
            Some(expiration) => now > expiration,
            None => false,
        }
    }

    /// Accounts for one event written at `now`, after which the buffer holds
    /// `size` bytes, and says whether the batch is to be exported: when its
    /// size or its row count has reached the threshold. The first event of a
    /// batch sets its expiration.
    pub fn process(&mut self, now: u64, size: usize) -> (export: bool)
        requires
            old(self).num_rows < usize::MAX,
        ensures
            final(self).opts == old(self).opts,
            final(self).num_rows == old(self).num_rows + 1,
            final(self).expiration == match old(self).expiration {
                Some(expiration) => Some(expiration),
                None => Some(
                    if now + old(self).opts.export_time_threshold > u64::MAX {
                        u64::MAX
                    } else {
                        (now + old(self).opts.export_time_threshold) as u64
                    },
                ),
            },
            export == (size >= old(self).opts.export_size_threshold || old(self).num_rows + 1 >= old(
                self,
            ).opts.export_row_threshold),
    {
        if self.expiration.is_none() {
            self.expiration = Some(now.saturating_add(self.opts.export_time_threshold));
        }
        self.num_rows = self.num_rows + 1;
        size >= self.opts.export_size_threshold || self.num_rows >= self.opts.export_row_threshold
    }

    /// Starts the next batch after an export. Whether anything is exported:
    /// only a batch with data is.
    pub fn export(&mut self) -> (exported: bool)
        ensures
            exported == (old(self).num_rows > 0),
            *final(self) == if exported {
                Batcher { opts: old(self).opts, num_rows: 0, expiration: None }
            } else {
                *old(self)
            },
    {
        if self.num_rows > 0 {
            self.num_rows = 0;
            self.expiration = None;
            true
        } else {
            false
        }
    }
}

} // verus!
