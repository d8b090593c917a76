//! Capabilities the collectors are assembled from, and their trivial
//! implementations.

use vstd::prelude::*;
use std::convert::Infallible;
use crate::analytics::batch::{BatchBuffer, BatchOpts};

verus! {

/// Anything that can be collected.
pub trait AnalyticsEvent {

}

impl<T> AnalyticsEvent for T {

}

/// Ships serialized batch data. Elapsed times are in milliseconds.
pub trait Exporter {
    type Error;

    fn export(self, data: Vec<u8>) -> Result<(), Self::Error>;
}

/// Writes events into a buffer in some file format.
pub trait BatchWriter<T>: Sized {
    type Error;

    fn create(buffer: BatchBuffer, opts: &BatchOpts) -> Result<Self, Self::Error>;

    fn write(&mut self, data: T) -> Result<(), Self::Error>;

    fn flush(&mut self) -> Result<(), Self::Error>;

    fn into_buffer(self) -> Result<Vec<u8>, Self::Error>;
}

/// Ships the buffer of a finished batch.
pub trait BatchExporter {
    type Error;

    fn export(self, data: Vec<u8>) -> Result<(), Self::Error>;
}

pub trait ExportObserver<E> {
    fn observe_export(&self, _elapsed: u64, _res: &Result<(), E>) {
    }
}

/// Creates empty batches.
///
/// An implementation says of itself when creation is sure to succeed and
/// what holds of the batches it creates; one that says neither promises
/// nothing.
pub trait BatchFactory<T> {
    type Batch: Batch<T>;

    type Error;

    /// Whether creating a batch is sure to succeed.
    open spec fn infallible(&self) -> bool {
        false
    }

    /// What holds of every batch this factory creates.
    open spec fn creates(&self, batch: Self::Batch) -> bool {
        true
    }

    fn create(&self) -> (r: Result<Self::Batch, Self::Error>)
        ensures
            self.infallible() ==> r is Ok,
            r is Ok ==> self.creates(r->Ok_0),
    ;
}

/// Accumulates events until it is exported.
///
/// An implementation says of itself which events it is sure to take, what a
/// push makes of the batch, when serialization is sure to succeed and what
/// holds of the serialized data; one that says none of these promises
/// nothing.
pub trait Batch<T>: Sized {
    type Error;

    /// The batch is at capacity.
    spec fn full(&self) -> bool;

    /// The batch holds no data.
    spec fn empty(&self) -> bool;

    /// Whether pushing `data` is sure to succeed.
    open spec fn accepts(&self, data: T) -> bool {
        false
    }

    /// What holds of the batch `after` a successful push of `data`.
    open spec fn pushed(&self, data: T, after: Self) -> bool {
        true
    }

    /// Whether serializing the batch is sure to succeed.
    open spec fn serializable(&self) -> bool {
        false
    }

    /// What holds of the data that the batch serializes to.
    open spec fn serialized(&self, data: Seq<u8>) -> bool {
        true
    }

    fn push(&mut self, data: T) -> (r: Result<(), Self::Error>)
        ensures
            old(self).accepts(data) ==> r is Ok,
            r is Ok ==> old(self).pushed(data, *final(self)),
    ;

    fn is_full(&self) -> (r: bool)
        ensures
            r == self.full(),
    ;

    fn is_empty(&self) -> (r: bool)
        ensures
            r == self.empty(),
    ;

    fn serialize(self) -> (r: Result<Vec<u8>, Self::Error>)
        ensures
            self.serializable() ==> r is Ok,
            r is Ok ==> self.serialized(r->Ok_0@),
    ;
}

pub trait BatchObserver<T, E> {
    fn observe_batch_push(&self, _res: &Result<(), E>) {
    }

    fn observe_batch_serialization(&self, _elapsed: u64, _res: &Result<Vec<u8>, E>) {
    }
}

/// Takes events in.
///
/// An implementation says of itself which events it is sure to take; one that
/// does not promises nothing.
pub trait Collector<T> {
    type Error;

    /// Whether collecting `data` is sure to succeed.
    open spec fn collects(&self, data: T) -> bool {
        false
    }

    fn collect(&self, data: T) -> (r: Result<(), Self::Error>)
        ensures
            self.collects(data) ==> r is Ok,
    ;
}

pub trait CollectionObserver<T, E> {
    fn observe_collection(&self, _res: &Result<(), E>) {
    }
}

/// A capability together with the observer that watches it.
#[derive(Clone)]
pub struct Observable<I, O> {
    pub inner: I,
    pub observer: O,
}

impl<I, O> Observable<I, O> {
    pub fn with_observer(inner: I, observer: O) -> (r: Self)
        ensures
            r.inner == inner,
            r.observer == observer,
    {
        Observable { inner, observer }
    }
}

impl<T, I: Batch<T>, O: BatchObserver<T, I::Error>> Batch<T> for Observable<I, O> {
    type Error = I::Error;

    open spec fn full(&self) -> bool {
        self.inner.full()
    }

    open spec fn empty(&self) -> bool {
        self.inner.empty()
    }

    /// The observed batch takes what the inner batch takes.
    open spec fn accepts(&self, data: T) -> bool {
        self.inner.accepts(data)
    }

    /// A push is a push to the inner batch; the observer stays.
    open spec fn pushed(&self, data: T, after: Self) -> bool {
        self.inner.pushed(data, after.inner) && after.observer == self.observer
    }

    /// The observed batch serializes when the inner batch does.
    open spec fn serializable(&self) -> bool {
        self.inner.serializable()
    }

    /// The observed batch serializes to what the inner batch serializes to.
    open spec fn serialized(&self, data: Seq<u8>) -> bool {
        self.inner.serialized(data)
    }

    fn push(&mut self, data: T) -> (r: Result<(), Self::Error>) {
        let res = self.inner.push(data);
        self.observer.observe_batch_push(&res);
        res
    }

    fn is_full(&self) -> (r: bool) {
        self.inner.is_full()
    }

    fn is_empty(&self) -> (r: bool) {
        self.inner.is_empty()
    }

    fn serialize(self) -> (r: Result<Vec<u8>, Self::Error>) {
        let res = self.inner.serialize();
        self.observer.observe_batch_serialization(0, &res);
        res
    }
}

impl<T, I: Collector<T>, O: CollectionObserver<T, I::Error>> Collector<T> for Observable<I, O> {
    type Error = I::Error;

    /// The observed collector takes what the inner collector takes.
    open spec fn collects(&self, data: T) -> bool {
        self.inner.collects(data)
    }

    fn collect(&self, data: T) -> (r: Result<(), Self::Error>) {
        let res = self.inner.collect(data);
        self.observer.observe_collection(&res);
        res
    }
}

/// Factory of batches that store nothing.
#[derive(Debug, Clone, Copy, PartialEq, Eq, Structural)]
pub struct NoopBatchFactory;

/// Batch that stores nothing: never full, always empty.
#[derive(Debug, Clone, Copy, PartialEq, Eq, Structural)]
pub struct NoopBatch;

impl<T> BatchFactory<T> for NoopBatchFactory {
    type Batch = NoopBatch;

    type Error = Infallible;

    /// Creation never fails.
    open spec fn infallible(&self) -> bool {
        true
    }

    /// Every batch created is the batch that stores nothing.
    open spec fn creates(&self, batch: NoopBatch) -> bool {
        batch == NoopBatch
    }

    fn create(&self) -> (r: Result<NoopBatch, Infallible>) {
        Ok(NoopBatch)
    }
}

impl<T> Batch<T> for NoopBatch {
    type Error = Infallible;

    open spec fn full(&self) -> bool {
        false
    }

    open spec fn empty(&self) -> bool {
        true
    }

    /// Every event is taken.
    open spec fn accepts(&self, data: T) -> bool {
        true
    }

    /// A push leaves the batch as it was.
    open spec fn pushed(&self, data: T, after: Self) -> bool {
        after == *self
    }

    /// Serialization never fails.
    open spec fn serializable(&self) -> bool {
        true
    }

    /// The batch serializes to no data at all.
    open spec fn serialized(&self, data: Seq<u8>) -> bool {
        data == Seq::<u8>::empty()
    }

    fn push(&mut self, _data: T) -> (r: Result<(), Infallible>) {
        Ok(())
    }

    fn is_full(&self) -> (r: bool) {
        false
    }

    fn is_empty(&self) -> (r: bool) {
        true
    }

    fn serialize(self) -> (r: Result<Vec<u8>, Infallible>) {
        Ok(Vec::new())
    }
}

/// Exporter that ships nothing.
#[derive(Debug, Clone, Copy, PartialEq, Eq, Structural)]
pub struct NoopExporter;

impl Exporter for NoopExporter {
    type Error = Infallible;

    fn export(self, _data: Vec<u8>) -> (r: Result<(), Infallible>)
        ensures
            r is Ok,
    {
        Ok(())
    }
}

/// Collector that drops every event.
#[derive(Debug, Clone, Copy, PartialEq, Eq, Structural)]
pub struct NoopCollector;

impl<T> Collector<T> for NoopCollector {
    type Error = Infallible;

    /// Every event is taken, and dropped.
    open spec fn collects(&self, data: T) -> bool {
        true
    }

    fn collect(&self, _data: T) -> (r: Result<(), Infallible>) {
        Ok(())
    }
}

} // verus!
