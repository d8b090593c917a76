//! Decisions of futures that race a computation against a timeout or a
//! cancellation.

use vstd::prelude::*;
use vstd::string::*;

verus! {

#[derive(Debug, Clone, Copy, PartialEq, Eq, Structural)]
pub enum Error {
    Timeout,
    Canceled,
}

impl Error {
    pub open spec fn text(self) -> Seq<char> {
        match self {
            Error::Timeout => "Timeout"@,
            Error::Canceled => "Canceled"@,
        }
    }

    pub fn to_string(&self) -> (s: String)
        ensures
            s@ == self.text(),
    {
        match self {
            Error::Timeout => String::from_str("Timeout"),
            Error::Canceled => String::from_str("Canceled"),
        }
    }
}

/// Outcome of polling a computation.
#[derive(Debug, Clone, Copy, PartialEq, Eq)]
pub enum Polled<T> {
    Ready(T),
    Pending,
}

/// What a racing future does next.
#[derive(Debug, Clone, Copy, PartialEq, Eq)]
pub enum Race<T> {
    /// The computation has finished with this value.
    Done(T),
    /// Nothing has happened yet.
    Wait,
    /// The computation lost the race: run the handler, then fail.
    RunHandler,
}

/// Decisions of a future under a timeout.
pub struct TimeoutFuture;

impl TimeoutFuture {
    /// The next step after polling the timed computation, which answers
    /// `Ok` with its value or `Err` once the time is up.
    pub fn poll<T>(fut: Polled<Result<T, ()>>) -> (step: Race<T>)
        ensures
            step == match fut {
                Polled::Ready(Ok(value)) => Race::Done(value),
                Polled::Ready(Err(_)) => Race::<T>::RunHandler,
                Polled::Pending => Race::<T>::Wait,
            },
    {
        match fut {
            Polled::Ready(Ok(value)) => Race::Done(value),
            Polled::Ready(Err(_)) => Race::RunHandler,
            Polled::Pending => Race::Wait,
        }
    }

    /// The outcome once the time is up: the timeout error as soon as the
    /// handler has finished.
    pub fn on_timeout<T>(handler: Polled<()>) -> (r: Polled<Result<T, Error>>)
        ensures
            r == match handler {
                Polled::Ready(_) => Polled::Ready(Err::<T, Error>(Error::Timeout)),
                Polled::Pending => Polled::<Result<T, Error>>::Pending,
            },
    {
        match handler {
            Polled::Ready(_) => Polled::Ready(Err(Error::Timeout)),
            Polled::Pending => Polled::Pending,
        }
    }
}

/// Decisions of a future that can be cancelled.
pub struct CancellationFuture;

impl CancellationFuture {
    /// The next step after polling the cancellation: once cancelled the
    /// handler runs and the computation is not polled again.
    pub fn poll(cancellation: Polled<()>) -> (run_handler: bool)
        ensures
            run_handler == (cancellation is Ready),
    {
        match cancellation {
            Polled::Ready(_) => true,
            Polled::Pending => false,
        }
    }

    /// The outcome after cancellation: the cancellation error as soon as the
    /// handler has finished.
    pub fn on_cancel<T>(handler: Polled<()>) -> (r: Polled<Result<T, Error>>)
        ensures
            r == match handler {
                Polled::Ready(_) => Polled::Ready(Err::<T, Error>(Error::Canceled)),
                Polled::Pending => Polled::<Result<T, Error>>::Pending,
            },
    {
        match handler {
            Polled::Ready(_) => Polled::Ready(Err(Error::Canceled)),
            Polled::Pending => Polled::Pending,
        }
    }

    /// The outcome while not cancelled: whatever the computation answers.
    pub fn running<T>(fut: Polled<T>) -> (r: Polled<Result<T, Error>>)
        ensures
            r == match fut {
                Polled::Ready(value) => Polled::Ready(Ok::<T, Error>(value)),
                Polled::Pending => Polled::<Result<T, Error>>::Pending,
            },
    {
        match fut {
            Polled::Ready(value) => Polled::Ready(Ok(value)),
            Polled::Pending => Polled::Pending,
        }
    }
}

} // verus!
