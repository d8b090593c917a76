use wc_utils::analytics::batch::{BatchBuffer, BatchError, BatchOpts, Batcher};
use wc_utils::analytics::collectors::{
    install, CollectionError, CollectorConfig, Event, EventLoop,
};
use wc_utils::analytics::traits::{
    Batch, BatchFactory, Collector, Exporter, NoopBatch, NoopBatchFactory, NoopCollector,
    NoopExporter,
};

/// Batch of numbers that is full at three rows and refuses the number 13.
#[derive(Debug, Clone, PartialEq, Eq, Default)]
struct Rows(Vec<u8>);

impl Batch<u8> for Rows {
    type Error = String;

    fn push(&mut self, data: u8) -> Result<(), String> {
        if data == 13 {
            return Err("unlucky".to_string());
        }
        self.0.push(data);
        Ok(())
    }

    fn is_full(&self) -> bool {
        self.0.len() >= 3
    }

    fn is_empty(&self) -> bool {
        self.0.is_empty()
    }

    fn serialize(self) -> Result<Vec<u8>, String> {
        Ok(self.0)
    }

    fn full(&self) -> bool {
        self.is_full()
    }

    fn empty(&self) -> bool {
        self.is_empty()
    }
}

struct RowsFactory {
    fail: bool,
}

impl BatchFactory<u8> for RowsFactory {
    type Batch = Rows;
    type Error = String;

    fn create(&self) -> Result<Rows, String> {
        if self.fail {
            Err("no batch".to_string())
        } else {
            Ok(Rows::default())
        }
    }
}

fn event_loop(fail: bool) -> EventLoop<RowsFactory, NoopExporter> {
    EventLoop::new(RowsFactory { fail }, NoopExporter, CollectorConfig::default())
}

#[test]
fn integration_export_by_num_rows() {
    let el = event_loop(false);
    let mut batch = Rows::default();
    for row in [1u8, 2] {
        let step = el.on_event(&mut batch, Event::Data(row)).unwrap();
        assert!(step.export.is_none() && !step.reset_interval && !step.stop);
    }
    let step = el.on_event(&mut batch, Event::Data(3)).unwrap();
    assert_eq!(step.export, Some(Rows(vec![1, 2, 3])));
    assert!(step.reset_interval && !step.stop);
    assert_eq!(batch, Rows::default());
}

#[test]
fn integration_export_by_timeout() {
    let el = event_loop(false);
    let mut batch = Rows::default();
    // A tick on an empty batch exports nothing.
    let step = el.on_event(&mut batch, Event::Tick).unwrap();
    assert!(step.export.is_none() && !step.reset_interval && !step.stop);
    el.on_event(&mut batch, Event::Data(7)).unwrap();
    let step = el.on_event(&mut batch, Event::Tick).unwrap();
    assert_eq!(step.export, Some(Rows(vec![7])));
    assert!(!step.reset_interval && !step.stop);
    assert_eq!(batch, Rows::default());
}

#[test]
fn closed_queue_exports_and_stops() {
    let el = event_loop(false);
    let mut batch = Rows(vec![9]);
    let step = el.on_event(&mut batch, Event::Closed).unwrap();
    assert_eq!(step.export, Some(Rows(vec![9])));
    assert!(step.stop);
    let step = el.on_event(&mut batch, Event::Closed).unwrap();
    assert!(step.export.is_none() && step.stop);
}

#[test]
fn failed_push_replaces_the_batch() {
    let el = event_loop(false);
    let mut batch = Rows(vec![1]);
    let step = el.on_event(&mut batch, Event::Data(13)).unwrap();
    assert!(step.export.is_none() && step.reset_interval && !step.stop);
    assert_eq!(batch, Rows::default());
}

#[test]
fn failing_factory_ends_the_loop() {
    let el = event_loop(true);
    let mut batch = Rows(vec![1]);
    assert_eq!(
        el.on_event(&mut batch, Event::Tick).err(),
        Some("no batch".to_string())
    );
    assert_eq!(batch, Rows(vec![1]));
    assert_eq!(
        el.replace_batch(&mut batch).err(),
        Some("no batch".to_string())
    );
    // An empty batch needs no replacement.
    let mut empty = Rows::default();
    assert_eq!(el.export_batch(&mut empty), Ok(None));
}

#[test]
fn replace_batch_hands_the_old_one_back() {
    let el = event_loop(false);
    let mut batch = Rows(vec![4, 5]);
    assert_eq!(el.replace_batch(&mut batch), Ok(Rows(vec![4, 5])));
    assert_eq!(batch, Rows::default());
}

#[test]
fn noop_parts_do_nothing() {
    let mut batch: NoopBatch = BatchFactory::<u8>::create(&NoopBatchFactory).unwrap();
    assert_eq!(Batch::<u8>::push(&mut batch, 1), Ok(()));
    assert!(!Batch::<u8>::is_full(&batch));
    assert!(Batch::<u8>::is_empty(&batch));
    assert_eq!(Batch::<u8>::serialize(batch), Ok(vec![]));
    assert_eq!(NoopExporter.export(vec![1, 2, 3]), Ok(()));
    assert_eq!(NoopCollector.collect(5u8), Ok(()));
}

#[test]
fn collection_errors() {
    assert_eq!(
        CollectionError::from_send_failure(true),
        CollectionError::DataChannelOverflow
    );
    assert_eq!(
        CollectionError::from_send_failure(false),
        CollectionError::DataChannelClosed
    );
    assert_eq!(
        CollectionError::DataChannelOverflow.to_string(),
        "Data channel overflow"
    );
    assert_eq!(
        CollectionError::DataChannelClosed.to_string(),
        "Data channel closed"
    );
    assert_eq!(
        BatchError::<u8>::from_send_failure(true),
        BatchError::EventQueueOverflow
    );
    assert_eq!(
        BatchError::<u8>::from_send_failure(false),
        BatchError::EventQueueChannelClosed
    );
}

#[test]
fn default_configurations() {
    assert_eq!(
        CollectorConfig::default(),
        CollectorConfig {
            data_queue_capacity: 8192,
            export_interval: 5 * 60 * 1000
        }
    );
    assert_eq!(
        BatchOpts::default(),
        BatchOpts {
            event_queue_limit: 2048,
            export_time_threshold: 60 * 5 * 1000,
            export_size_threshold: 1024 * 1024 * 128,
            export_row_threshold: 1024 * 128,
            batch_alloc_size: 1024 * 1024 * 130,
            export_check_interval: 30 * 1000,
        }
    );
}

#[test]
fn batch_buffer_counts_bytes() {
    let mut buffer = BatchBuffer::new(16);
    assert_eq!(buffer.size_bytes(), 0);
    assert_eq!(buffer.write(&[1, 2, 3]), 3);
    assert_eq!(buffer.write(&[]), 0);
    assert_eq!(buffer.write(&[4]), 1);
    assert_eq!(buffer.size_bytes(), 4);
    assert_eq!(buffer.into_inner(), vec![1, 2, 3, 4]);
}

#[test]
fn batcher_thresholds() {
    let opts = BatchOpts {
        export_size_threshold: 100,
        export_row_threshold: 3,
        export_time_threshold: 500,
        ..BatchOpts::default()
    };
    let mut batcher = Batcher::new(opts);
    assert!(!batcher.has_data());
    assert!(!batcher.is_expired(u64::MAX));
    assert!(!batcher.export());

    assert!(!batcher.process(1_000, 10));
    assert_eq!(batcher.expiration, Some(1_500));
    assert!(!batcher.is_expired(1_500));
    assert!(batcher.is_expired(1_501));
    // The size threshold is reached.
    assert!(batcher.process(1_100, 100));
    assert_eq!(batcher.expiration, Some(1_500));
    // The row threshold is reached.
    assert!(batcher.process(1_200, 0));
    assert_eq!(batcher.num_rows, 3);
    assert!(batcher.has_data());

    assert!(batcher.export());
    assert_eq!(batcher, Batcher::new(opts));
}

#[test]
fn turns_of_the_event_loop() {
    let el = event_loop(false);

    // A push that succeeded on a batch with room changes nothing.
    let mut batch = Rows(vec![1]);
    let step = el.after_push(&mut batch, true).unwrap();
    assert!(step.export.is_none() && !step.reset_interval && !step.stop);
    assert_eq!(batch, Rows(vec![1]));

    // A full batch is exported.
    let mut batch = Rows(vec![1, 2, 3]);
    let step = el.after_push(&mut batch, true).unwrap();
    assert_eq!(step.export, Some(Rows(vec![1, 2, 3])));
    assert!(step.reset_interval && !step.stop);

    // A failed push drops the batch.
    let mut batch = Rows(vec![1, 2]);
    let step = el.after_push(&mut batch, false).unwrap();
    assert!(step.export.is_none() && step.reset_interval && !step.stop);
    assert_eq!(batch, Rows::default());

    // A tick and the close of the queue export what there is.
    let mut batch = Rows(vec![5]);
    let step = el.after_wait(&mut batch, false).unwrap();
    assert_eq!(step.export, Some(Rows(vec![5])));
    assert!(!step.reset_interval && !step.stop);
    let step = el.after_wait(&mut batch, true).unwrap();
    assert!(step.export.is_none() && !step.reset_interval && step.stop);

    let broken = event_loop(true);
    let mut batch = Rows(vec![1, 2, 3]);
    assert!(broken.after_push(&mut batch, true).is_err());
    assert!(broken.after_push(&mut batch, false).is_err());
    assert!(broken.after_wait(&mut batch, false).is_err());
    assert_eq!(batch, Rows(vec![1, 2, 3]));
}

#[test]
fn installing_a_created_batch() {
    let mut current = Rows(vec![1, 2]);
    let created: Result<Rows, String> = Ok(Rows(vec![9]));
    assert_eq!(install(&mut current, created), Ok(Rows(vec![1, 2])));
    assert_eq!(current, Rows(vec![9]));

    let failed: Result<Rows, String> = Err("no batch".to_string());
    assert_eq!(install(&mut current, failed), Err("no batch".to_string()));
    assert_eq!(current, Rows(vec![9]));
}
