//! The idle-timeout state machine of the receiving side, and the decisions
//! of the task that bridges a native connection to the inbound and outbound
//! queues.
//!
//! All instants and durations are plain millisecond counts. The caller owns
//! the clock, the timers and the queues: it reports what happened and carries
//! out what these functions answer.

use vstd::prelude::*;
use crate::websocket::heartbeat::{
    be_bytes, deadline_after, heartbeat_message, latency_of, lemma_timestamp_round_trip,
    measure_latency, timestamp,
};
use crate::websocket::message::{Error, Frame, Message};
use crate::websocket::observer::{count, lemma_count_push_all, Observation, Observer, Tallied};

verus! {

/// Outcome of one receive attempt.
#[derive(Debug, Clone, PartialEq, Eq)]
pub enum Received<T> {
    /// A value for the caller.
    Item(T),
    /// Nothing for the caller from this event: poll again.
    Skip,
    /// End of stream.
    End,
}

/// What the receiving side does with one inbound event, absent a timeout: data
/// frames are yielded, heartbeat frames are consumed, a closing frame or the
/// end of the queue (`None`) ends the stream.
pub open spec fn filter_inbound(event: Option<Message>) -> Received<Message> {
    match event {
        Some(Message::Binary(b)) => Received::Item(Message::Binary(b)),
        Some(Message::Text(s)) => Received::Item(Message::Text(s)),
        Some(Message::Close(_)) => Received::End,
        Some(Message::Ping(_)) => Received::Skip,
        Some(Message::Pong(_)) => Received::Skip,
        None => Received::End,
    }
}

/// Idle-timeout enforcing state of the queue-backed duplex.
///
/// The receiving side is armed with a deadline until the deadline passes or
/// the stream ends; both are terminal.
#[derive(Debug, Clone, PartialEq, Eq)]
pub struct Core {
    /// Instant at which the connection is presumed dead; `None` once expired.
    pub deadline: Option<u64>,
    /// Silence tolerated between two inbound frames.
    pub timeout: u64,
    /// Set once the stream has ended by a closing frame or the end of the
    /// inbound queue.
    pub finished: bool,
}

impl Core {
    /// The deadline has passed, now or at an earlier poll.
    pub open spec fn expired_at(self, now: u64) -> bool {
        match self.deadline {
            Some(deadline) => now >= deadline,
            None => true,
        }
    }

    /// State after a timeout check at `now`.
    pub open spec fn checked(self, now: u64) -> Core {
        if self.expired_at(now) {
            Core { deadline: None, timeout: self.timeout, finished: self.finished }
        } else {
            self
        }
    }

    /// State and outcome of a receive attempt at `now` to which the inbound
    /// queue answers `event`.
    pub open spec fn step(self, now: u64, event: Option<Message>) -> (Core, Received<Message>) {
        if self.expired_at(now) {
            (self.checked(now), Received::End)
        } else if self.finished {
            (self, Received::End)
        } else {
            (
                Core {
                    deadline: Some(deadline_after(now, self.timeout)),
                    timeout: self.timeout,
                    finished: filter_inbound(event) is End,
                },
                filter_inbound(event),
            )
        }
    }

    /// The state armed at `now`: the deadline lies `timeout` ahead.
    pub open spec fn new_spec(timeout: u64, now: u64) -> Core {
        Core { deadline: Some(deadline_after(now, timeout)), timeout, finished: false }
    }

    /// Arms the idle timeout at `now`.
    pub fn new(timeout: u64, now: u64) -> (core: Core)
        ensures
            core == Core::new_spec(timeout, now),
    {
        Core { deadline: Some(now.saturating_add(timeout)), timeout, finished: false }
    }

    /// Whether the idle timeout has been reached. Once it has, it stays so.
    pub fn poll_timeout(&mut self, now: u64) -> (ready: bool)
        ensures
            ready == old(self).expired_at(now),
            *final(self) == old(self).checked(now),
    {
        match self.deadline {
            Some(deadline) => {
                if now >= deadline {
                    self.deadline = None;
                    true
                } else {
                    false
                }
            },
            None => true,
        }
    }

    /// Pushes the deadline to `now + timeout`, unless it has already passed.
    pub fn reset_timeout(&mut self, now: u64)
        ensures
            *final(self) == (Core {
                deadline: if old(self).deadline is Some {
                    Some(deadline_after(now, old(self).timeout))
                } else {
                    None
                },
                timeout: old(self).timeout,
                finished: old(self).finished,
            }),
    {
        if self.deadline.is_some() {
            self.deadline = Some(now.saturating_add(self.timeout));
        }
    }

    /// Readiness to send at `now`: refused with `Closed` once the idle timeout
    /// has been reached; otherwise the outbound queue decides.
    pub fn poll_ready(&mut self, now: u64) -> (r: Result<(), Error>)
        ensures
            *final(self) == old(self).checked(now),
            old(self).expired_at(now) ==> r == Err::<(), Error>(Error::Closed),
            !old(self).expired_at(now) ==> r is Ok,
    {
        if self.poll_timeout(now) {
            Err(Error::Closed)
        } else {
            Ok(())
        }
    }

    /// Outcome of handing a frame, a flush or a close to the outbound queue:
    /// `Closed` exactly when the far end of the queue has gone away.
    pub fn proxy(delivered: bool) -> (r: Result<(), Error>)
        ensures
            delivered ==> r is Ok,
            !delivered ==> r == Err::<(), Error>(Error::Closed),
    {
        if delivered {
            Ok(())
        } else {
            Err(Error::Closed)
        }
    }

    /// One receive attempt at `now`, to which the inbound queue answers
    /// `event` (`None`: the queue has ended). Any frame counts as liveness and
    /// re-arms the timeout.
    pub fn poll_next(&mut self, now: u64, event: Option<Message>) -> (r: Received<Message>)
        ensures
            (*final(self), r) == old(self).step(now, event),
    {
        if self.poll_timeout(now) {
            return Received::End;
        }
        if self.finished {
            return Received::End;
        }
        self.reset_timeout(now);
        let result = match event {
            Some(Message::Binary(b)) => Received::Item(Message::Binary(b)),
            Some(Message::Text(s)) => Received::Item(Message::Text(s)),
            Some(Message::Close(_)) => Received::End,
            Some(Message::Ping(_)) => Received::Skip,
            Some(Message::Pong(_)) => Received::Skip,
            None => Received::End,
        };
        if let Received::End = result {
            self.finished = true;
        }
        result
    }
}

/// Once a receive attempt has found the idle timeout reached, every later
/// attempt ends the stream and every later send is refused, whatever arrives
/// and whenever.
pub proof fn lemma_expired_is_terminal(core: Core, now: u64, later: u64, event: Option<Message>)
    requires
        core.expired_at(now),
    ensures
        core.step(now, event).1 == Received::<Message>::End,
        core.step(now, event).0.expired_at(later),
        core.checked(now).expired_at(later),
{
}

/// If nothing arrives within `timeout` of the last frame received, the next
/// receive attempt ends the stream, and so does every attempt after it.
pub proof fn lemma_idle_timeout(
    core: Core,
    last: u64,
    frame: Option<Message>,
    now: u64,
    event: Option<Message>,
    later: u64,
    next: Option<Message>,
)
    requires
        !core.expired_at(last),
        last + core.timeout <= now,
    ensures
        ({
            let armed = core.step(last, frame).0;
            let after = armed.step(now, event);
            &&& after.1 == Received::<Message>::End
            &&& after.0.step(later, next).1 == Received::<Message>::End
        }),
{
}

/// After the stream has ended by a closing frame or the end of the queue, no
/// later receive attempt yields anything.
pub proof fn lemma_closed_is_terminal(
    core: Core,
    now: u64,
    event: Option<Message>,
    later: u64,
    next: Option<Message>,
)
    requires
        core.step(now, event).1 is End,
    ensures
        core.step(now, event).0.step(later, next).1 is End,
{
}

/// What the outbound half of the bridge is woken by.
#[derive(Debug, Clone, PartialEq, Eq)]
pub enum Outbound {
    /// A frame taken from the outbound queue.
    Frame(Message),
    /// The heartbeat timer ticked.
    Tick,
    /// The outbound queue has closed.
    Closed,
}

/// What the inbound half of the bridge is woken by.
#[derive(Debug, Clone, PartialEq, Eq)]
pub enum Inbound {
    /// A frame read from the native connection.
    Frame(Message),
    /// The native connection has ended or failed.
    Ended,
}

/// What can break the inbound half.
#[derive(Debug, Clone, PartialEq, Eq)]
pub enum Failure {
    /// The native connection reported an I/O error.
    Native(String),
    /// The inbound queue refused a frame.
    Queue(String),
}

/// A frame for the inbound queue, with the round-trip time reported for it.
#[derive(Debug, Clone, PartialEq, Eq)]
pub struct Delivery {
    pub message: Message,
    pub latency: Option<u64>,
}

/// Bookkeeping of the task that bridges the native connection to the two
/// queues. The task runs both halves until each has ended.
pub struct Driver<O> {
    pub observer: O,
    /// Capacity of each of the two queues.
    pub capacity: usize,
    /// Period of the heartbeat timer, in milliseconds.
    pub heartbeat_interval: u64,
    /// Internal trigger: the native receive stream has ended.
    pub stream_ended: bool,
    /// External trigger: the facade was closed or dropped.
    pub shutdown: bool,
    /// The outbound queue has closed.
    pub queue_closed: bool,
}

/// State of a bridge that has just been started.
pub fn spawn<O: Observer>(observer: O, capacity: usize, heartbeat_interval: u64) -> (driver: Driver<
    O,
>)
    ensures
        driver.observer == observer,
        driver.capacity == capacity,
        driver.heartbeat_interval == heartbeat_interval,
        !driver.stream_ended && !driver.shutdown && !driver.queue_closed,
        driver.inbound_active() && driver.outbound_active(),
{
    Driver {
        observer,
        capacity,
        heartbeat_interval,
        stream_ended: false,
        shutdown: false,
        queue_closed: false,
    }
}

impl<O: Observer> Driver<O> {
    /// The inbound half runs until the native stream ends or the external
    /// trigger fires.
    pub open spec fn inbound_active(self) -> bool {
        !self.stream_ended && !self.shutdown
    }

    /// The outbound half runs until the outbound queue closes or either
    /// trigger fires.
    pub open spec fn outbound_active(self) -> bool {
        !self.queue_closed && !self.stream_ended && !self.shutdown
    }

    /// The frame written to the native connection for `event` at Unix time
    /// `now`: a queued frame as it is, a fresh probe for a tick, nothing once
    /// the half has ended or when the queue closes.
    pub open spec fn transmitted(self, event: Outbound, now: u64) -> Option<Frame> {
        if !self.outbound_active() {
            None
        } else {
            match event {
                Outbound::Frame(msg) => Some(msg@),
                Outbound::Tick => Some(Frame::Ping(be_bytes(now))),
                Outbound::Closed => None,
            }
        }
    }

    /// The frame put into the inbound queue for `event` at Unix time `now`:
    /// every frame read while the half runs, with the latency measured from it.
    pub open spec fn delivered(self, event: Inbound, now: u64) -> Option<(Frame, Option<u64>)> {
        if !self.inbound_active() {
            None
        } else {
            match event {
                Inbound::Frame(msg) => Some((msg@, latency_of(msg@, now))),
                Inbound::Ended => None,
            }
        }
    }

    /// What the outbound half shows the observer for `event` at Unix time
    /// `now`: the frame it transmits, if any.
    pub open spec fn shown_outbound(self, event: Outbound, now: u64) -> Seq<Observation> {
        match self.transmitted(event, now) {
            Some(frame) => seq![Observation::Outbound(frame)],
            None => Seq::empty(),
        }
    }

    /// What the inbound half shows the observer for `event` at Unix time
    /// `now`: the frame it delivers, then the latency measured from it, if
    /// any.
    pub open spec fn shown_inbound(self, event: Inbound, now: u64) -> Seq<Observation> {
        match self.delivered(event, now) {
            Some((frame, Some(rtt))) => seq![Observation::Inbound(frame), Observation::Latency(rtt)],
            Some((frame, None)) => seq![Observation::Inbound(frame)],
            None => Seq::empty(),
        }
    }

    /// Fires the external trigger: both halves stop at once.
    pub fn shutdown(&mut self)
        ensures
            final(self).shutdown,
            final(self).observer == old(self).observer,
            final(self).capacity == old(self).capacity,
            final(self).heartbeat_interval == old(self).heartbeat_interval,
            final(self).stream_ended == old(self).stream_ended,
            final(self).queue_closed == old(self).queue_closed,
            !final(self).inbound_active() && !final(self).outbound_active(),
    {
        self.shutdown = true;
    }

    /// Ends the inbound half after a failure and names the failure: an I/O
    /// error of the native connection is a transport error, a refusal of the
    /// inbound queue an internal one. The consumer sees neither: for it the
    /// stream has ended.
    pub fn fail(&mut self, failure: Failure) -> (error: Error)
        ensures
            error == match failure {
                Failure::Native(cause) => Error::Transport(cause),
                Failure::Queue(cause) => Error::Internal(cause),
            },
            final(self).stream_ended,
            final(self).observer == old(self).observer,
            final(self).capacity == old(self).capacity,
            final(self).heartbeat_interval == old(self).heartbeat_interval,
            final(self).shutdown == old(self).shutdown,
            final(self).queue_closed == old(self).queue_closed,
            !final(self).inbound_active() && !final(self).outbound_active(),
    {
        self.stream_ended = true;
        match failure {
            Failure::Native(cause) => Error::transport(cause),
            Failure::Queue(cause) => Error::internal(cause),
        }
    }

    /// Both halves have ended.
    pub fn is_finished(&self) -> (done: bool)
        ensures
            done == (!self.inbound_active() && !self.outbound_active()),
    {
        self.stream_ended || self.shutdown
    }

    /// What one step of the outbound half at Unix time `now` comes to: the
    /// frame answered is the one transmitted, the queue counts as closed once
    /// it has reported so, and a recording observer has been shown the frame.
    pub open spec fn outbound_step(
        self,
        event: Outbound,
        now: u64,
        after: Driver<O>,
        frame: Option<Message>,
    ) -> bool {
        &&& match frame {
            Some(msg) => self.transmitted(event, now) == Some(msg@),
            None => self.transmitted(event, now) is None,
        }
        &&& event is Frame && self.outbound_active() ==> frame == Some(event->Frame_0)
        &&& after.queue_closed == (self.queue_closed || event is Closed)
        &&& after.capacity == self.capacity
        &&& after.heartbeat_interval == self.heartbeat_interval
        &&& after.stream_ended == self.stream_ended
        &&& after.shutdown == self.shutdown
        &&& after.observer.records() == self.observer.records()
        &&& self.observer.records() ==> after.observer.seen() == self.observer.seen()
            + self.shown_outbound(event, now)
    }

    /// What one step of the inbound half at Unix time `now` comes to: the
    /// frame answered is the one delivered, with the latency measured from
    /// it, the end of the native stream fires the internal trigger, and a
    /// recording observer has been shown the frame and the latency.
    pub open spec fn inbound_step(
        self,
        event: Inbound,
        now: u64,
        after: Driver<O>,
        delivery: Option<Delivery>,
    ) -> bool {
        &&& match delivery {
            Some(d) => self.delivered(event, now) == Some((d.message@, d.latency)),
            None => self.delivered(event, now) is None,
        }
        &&& event is Frame && self.inbound_active() ==> delivery is Some
            && delivery.unwrap().message == event->Frame_0
        &&& after.stream_ended == (self.stream_ended || event is Ended)
        &&& after.capacity == self.capacity
        &&& after.heartbeat_interval == self.heartbeat_interval
        &&& after.queue_closed == self.queue_closed
        &&& after.shutdown == self.shutdown
        &&& after.observer.records() == self.observer.records()
        &&& self.observer.records() ==> after.observer.seen() == self.observer.seen()
            + self.shown_inbound(event, now)
    }

    /// One step of the outbound half at Unix time `now`. The frame returned is
    /// to be written to the native connection; it has been reported to the
    /// observer's outbound hook.
    pub fn outbound_at(&mut self, event: Outbound, now: u64) -> (frame: Option<Message>)
        ensures
            old(self).outbound_step(event, now, *final(self), frame),
    {
        let active = !self.queue_closed && !self.stream_ended && !self.shutdown;
        let ghost before = self.observer.seen();
        match event {
            Outbound::Frame(msg) => {
                if active {
                    self.observer.outbound_message(&msg);
                    assert(before.push(Observation::Outbound(msg@)) =~= before + seq![
                        Observation::Outbound(msg@),
                    ]);
                    Some(msg)
                } else {
                    assert(before + Seq::<Observation>::empty() =~= before);
                    None
                }
            },
            Outbound::Tick => {
                if active {
                    let msg = heartbeat_message(now);
                    self.observer.outbound_message(&msg);
                    assert(before.push(Observation::Outbound(msg@)) =~= before + seq![
                        Observation::Outbound(msg@),
                    ]);
                    Some(msg)
                } else {
                    assert(before + Seq::<Observation>::empty() =~= before);
                    None
                }
            },
            Outbound::Closed => {
                self.queue_closed = true;
                assert(before + Seq::<Observation>::empty() =~= before);
                None
            },
        }
    }

    /// One step of the outbound half, stamped with the system clock.
    pub fn outbound(&mut self, event: Outbound) -> (frame: Option<Message>)
        ensures
            exists|now: u64| #[trigger] old(self).outbound_step(event, now, *final(self), frame),
    {
        let now = timestamp();
        let frame = self.outbound_at(event, now);
        assert(old(self).outbound_step(event, now, *self, frame));
        frame
    }

    /// One step of the inbound half at Unix time `now`. The frame returned is
    /// to be put into the inbound queue; it has been reported to the observer's
    /// inbound hook, and so has the latency measured from it. The end of the
    /// native stream fires the internal trigger.
    pub fn inbound_at(&mut self, event: Inbound, now: u64) -> (delivery: Option<Delivery>)
        ensures
            old(self).inbound_step(event, now, *final(self), delivery),
    {
        let active = !self.stream_ended && !self.shutdown;
        let ghost before = self.observer.seen();
        match event {
            Inbound::Frame(msg) => {
                if active {
                    self.observer.inbound_message(&msg);
                    let latency = measure_latency(&msg, now);
                    if let Some(rtt) = latency {
                        self.observer.latency(rtt);
                        assert(before.push(Observation::Inbound(msg@)).push(
                            Observation::Latency(rtt),
                        ) =~= before + seq![Observation::Inbound(msg@), Observation::Latency(rtt)]);
                    } else {
                        assert(before.push(Observation::Inbound(msg@)) =~= before + seq![
                            Observation::Inbound(msg@),
                        ]);
                    }
                    Some(Delivery { message: msg, latency })
                } else {
                    assert(before + Seq::<Observation>::empty() =~= before);
                    None
                }
            },
            Inbound::Ended => {
                self.stream_ended = true;
                assert(before + Seq::<Observation>::empty() =~= before);
                None
            },
        }
    }

    /// One step of the inbound half, stamped with the system clock.
    pub fn inbound(&mut self, event: Inbound) -> (delivery: Option<Delivery>)
        ensures
            exists|now: u64| #[trigger] old(self).inbound_step(event, now, *final(self), delivery),
    {
        let now = timestamp();
        let delivery = self.inbound_at(event, now);
        assert(old(self).inbound_step(event, now, *self, delivery));
        delivery
    }
}

/// Everything the inbound half puts into the inbound queue has been shown to
/// the observer first, and every frame the outbound half transmits has been
/// shown before it is transmitted: a recording observer's record ends with it.
pub proof fn lemma_forwarded_is_observed<O: Observer>(
    driver: Driver<O>,
    outbound: Outbound,
    inbound: Inbound,
    now: u64,
)
    ensures
        driver.transmitted(outbound, now) matches Some(frame) ==> driver.shown_outbound(
            outbound,
            now,
        ) == seq![Observation::Outbound(frame)],
        driver.delivered(inbound, now) matches Some((frame, _)) ==> driver.shown_inbound(
            inbound,
            now,
        ).first() == Observation::Inbound(frame),
        count(driver.shown_inbound(inbound, now), Tallied::Latency) == count(
            driver.shown_inbound(inbound, now),
            Tallied::InboundPong,
        ),
{
    let shown = driver.shown_inbound(inbound, now);
    let none = Seq::<Observation>::empty();
    match driver.delivered(inbound, now) {
        Some((frame, Some(rtt))) => {
            let first = Observation::Inbound(frame);
            let second = Observation::Latency(rtt);
            assert(shown =~= none.push(first).push(second));
            lemma_count_push_all(none, first);
            lemma_count_push_all(none.push(first), second);
            assert(frame is Pong);
        },
        Some((frame, None)) => {
            let first = Observation::Inbound(frame);
            assert(shown =~= none.push(first));
            lemma_count_push_all(none, first);
            assert(!(frame is Pong));
        },
        None => {},
    }
}

/// A latency is reported for a frame exactly when the frame answers a probe,
/// and a probe answered verbatim at `now` reports the time elapsed since it
/// was sent.
pub proof fn lemma_latency_per_pong(frame: Frame, sent: u64, now: u64)
    ensures
        latency_of(frame, now) is Some <==> frame is Pong,
        sent <= now ==> latency_of(Frame::Pong(be_bytes(sent)), now) == Some((now - sent) as u64),
{
    lemma_timestamp_round_trip(sent);
}

/// The number of answered probes among `frames`.
pub open spec fn count_pongs(frames: Seq<Message>) -> nat
    decreases frames.len(),
{
    if frames.len() == 0 {
        0
    } else {
        count_pongs(frames.drop_last()) + if frames.last()@ is Pong {
            1nat
        } else {
            0nat
        }
    }
}

/// The number of latencies reported when the inbound half reads `frames`,
/// the frame at index `i` at the instant `times[i]`.
pub open spec fn count_latencies<O: Observer>(
    driver: Driver<O>,
    frames: Seq<Message>,
    times: Seq<u64>,
) -> nat
    recommends
        frames.len() == times.len(),
    decreases frames.len(),
{
    if frames.len() == 0 {
        0
    } else {
        count_latencies(driver, frames.drop_last(), times.drop_last()) + match driver.delivered(
            Inbound::Frame(frames.last()),
            times.last(),
        ) {
            Some((_, Some(_))) => 1nat,
            _ => 0nat,
        }
    }
}

/// While the inbound half runs, it reports exactly one latency for every
/// answered probe it reads.
pub proof fn lemma_latency_count<O: Observer>(
    driver: Driver<O>,
    frames: Seq<Message>,
    times: Seq<u64>,
)
    requires
        driver.inbound_active(),
        frames.len() == times.len(),
    ensures
        count_latencies(driver, frames, times) == count_pongs(frames),
    decreases frames.len(),
{
    if frames.len() > 0 {
        lemma_latency_count(driver, frames.drop_last(), times.drop_last());
    }
}

/// Once the native stream has ended or the external trigger has fired, neither
/// half forwards anything.
pub proof fn lemma_stopped_forwards_nothing<O: Observer>(
    driver: Driver<O>,
    outbound: Outbound,
    inbound: Inbound,
    now: u64,
)
    requires
        driver.stream_ended || driver.shutdown,
    ensures
        driver.transmitted(outbound, now) is None,
        driver.delivered(inbound, now) is None,
{
}

} // verus!
