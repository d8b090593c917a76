//! The typed duplex exposed to applications, and its configuration.

use vstd::prelude::*;
use crate::websocket::codec::{decode_frame, encode_frame, DataCodec, MessageCodec};
use crate::websocket::message::{Error, Message};
use crate::websocket::observer::Observer;
use crate::websocket::transport::{spawn, Core, Driver, Received};

verus! {

/// Configuration of one connection. Durations are in milliseconds.
///
/// The idle timeout is meant to exceed the heartbeat interval; this is not
/// enforced.
#[derive(Debug, Clone, Copy, PartialEq, Eq)]
pub struct Config {
    pub channel_capacity: usize,
    pub heartbeat_interval: u64,
    pub idle_timeout: u64,
}

impl Config {
    /// Capacity 64, a heartbeat every 5 s, an idle timeout of 15 s.
    pub open spec fn standard() -> Config {
        Config { channel_capacity: 64, heartbeat_interval: 5000, idle_timeout: 15000 }
    }
}

impl Default for Config {
    fn default() -> (config: Self)
        ensures
            config == Config::standard(),
    {
        Config { channel_capacity: 64, heartbeat_interval: 5000, idle_timeout: 15000 }
    }
}

/// Collects the wire adapter, the codec, the observer and the configuration
/// of a connection.
pub struct Builder<B, C, O> {
    pub backend: B,
    pub codec: C,
    pub observer: O,
    pub config: Config,
}

impl Builder<(), (), ()> {
    /// A builder with the default configuration, no wire adapter, no codec
    /// and the observer that observes nothing.
    pub fn new() -> (builder: Self)
        ensures
            builder.config == Config::standard(),
    {
        Builder { backend: (), codec: (), observer: (), config: Config::default() }
    }
}

/// What a builder assembles: the facade, the state of the bridge that serves
/// it, and the wire adapter the bridge is to run on.
pub struct Parts<B, C, O> {
    pub socket: WebSocket<C>,
    pub driver: Driver<O>,
    pub backend: B,
}

impl<B, C, O> Builder<B, C, O> {
    /// Sets the wire adapter.
    pub fn backend<T>(self, backend: T) -> (builder: Builder<T, C, O>)
        ensures
            builder.backend == backend,
            builder.codec == self.codec,
            builder.observer == self.observer,
            builder.config == self.config,
    {
        Builder { backend, codec: self.codec, observer: self.observer, config: self.config }
    }

    /// Sets the payload codec.
    pub fn codec<T: DataCodec>(self, codec: T) -> (builder: Builder<B, T, O>)
        ensures
            builder.backend == self.backend,
            builder.codec == codec,
            builder.observer == self.observer,
            builder.config == self.config,
    {
        Builder { backend: self.backend, codec, observer: self.observer, config: self.config }
    }

    /// Sets the observer.
    pub fn observer<T: Observer>(self, observer: T) -> (builder: Builder<B, C, T>)
        ensures
            builder.backend == self.backend,
            builder.codec == self.codec,
            builder.observer == observer,
            builder.config == self.config,
    {
        Builder { backend: self.backend, codec: self.codec, observer, config: self.config }
    }

    /// Sets the capacity of the inbound and of the outbound queue.
    pub fn channel_capacity(self, capacity: usize) -> (builder: Self)
        ensures
            builder.backend == self.backend,
            builder.codec == self.codec,
            builder.observer == self.observer,
            builder.config == (Config { channel_capacity: capacity, ..self.config }),
    {
        Builder {
            backend: self.backend,
            codec: self.codec,
            observer: self.observer,
            config: Config {
                channel_capacity: capacity,
                heartbeat_interval: self.config.heartbeat_interval,
                idle_timeout: self.config.idle_timeout,
            },
        }
    }

    /// Sets the period, in milliseconds, at which heartbeat probes are sent.
    pub fn heartbeat_interval(self, interval: u64) -> (builder: Self)
        ensures
            builder.backend == self.backend,
            builder.codec == self.codec,
            builder.observer == self.observer,
            builder.config == (Config { heartbeat_interval: interval, ..self.config }),
    {
        Builder {
            backend: self.backend,
            codec: self.codec,
            observer: self.observer,
            config: Config {
                channel_capacity: self.config.channel_capacity,
                heartbeat_interval: interval,
                idle_timeout: self.config.idle_timeout,
            },
        }
    }

    /// Sets the silence, in milliseconds, after which the connection is
    /// presumed dead.
    pub fn idle_timeout(self, timeout: u64) -> (builder: Self)
        ensures
            builder.backend == self.backend,
            builder.codec == self.codec,
            builder.observer == self.observer,
            builder.config == (Config { idle_timeout: timeout, ..self.config }),
    {
        Builder {
            backend: self.backend,
            codec: self.codec,
            observer: self.observer,
            config: Config {
                channel_capacity: self.config.channel_capacity,
                heartbeat_interval: self.config.heartbeat_interval,
                idle_timeout: timeout,
            },
        }
    }

    /// The facade, armed at `now`, the state of the bridge that serves it,
    /// and the wire adapter.
    pub fn build(self, now: u64) -> (parts: Parts<B, C, O>) where C: DataCodec, O: Observer
        ensures
            parts.backend == self.backend,
            parts.socket.codec == self.codec,
            parts.socket.inner == Core::new_spec(self.config.idle_timeout, now),
            parts.driver.observer == self.observer,
            parts.driver.capacity == self.config.channel_capacity,
            parts.driver.heartbeat_interval == self.config.heartbeat_interval,
            parts.driver.inbound_active() && parts.driver.outbound_active(),
    {
        let (socket, driver) = WebSocket::new_internal(
            self.codec,
            self.observer,
            self.config,
            now,
        );
        Parts { socket, driver, backend: self.backend }
    }
}

/// Typed duplex over [`Core`]: payloads go out through the codec and come in
/// through it.
pub struct WebSocket<C> {
    pub inner: Core,
    pub codec: C,
}

impl WebSocket<()> {
    pub fn builder() -> (builder: Builder<(), (), ()>)
        ensures
            builder.config == Config::standard(),
    {
        Builder::new()
    }
}

/// What the facade hands up for what the core yields: a decoded payload for a
/// frame the codec accepts; a frame it does not accept is discarded.
pub open spec fn lift<C: DataCodec>(codec: &C, yielded: Received<Message>) -> Received<
    C::Payload,
> {
    match yielded {
        Received::Item(msg) => match decode_frame(codec, msg) {
            Some(payload) => Received::Item(payload),
            None => Received::Skip,
        },
        Received::Skip => Received::Skip,
        Received::End => Received::End,
    }
}

impl<C: DataCodec> WebSocket<C> {
    /// A facade with the default configuration and no observer.
    pub fn new(codec: C, now: u64) -> (parts: (Self, Driver<()>))
        ensures
            parts.0.codec == codec,
            parts.0.inner == Core::new_spec(Config::standard().idle_timeout, now),
            parts.1.capacity == Config::standard().channel_capacity,
            parts.1.heartbeat_interval == Config::standard().heartbeat_interval,
            parts.1.inbound_active() && parts.1.outbound_active(),
    {
        Self::new_internal(codec, (), Config::default(), now)
    }

    pub fn new_internal<O: Observer>(codec: C, observer: O, config: Config, now: u64) -> (parts: (
        Self,
        Driver<O>,
    ))
        ensures
            parts.0.codec == codec,
            parts.0.inner == Core::new_spec(config.idle_timeout, now),
            parts.1.observer == observer,
            parts.1.capacity == config.channel_capacity,
            parts.1.heartbeat_interval == config.heartbeat_interval,
            parts.1.inbound_active() && parts.1.outbound_active(),
    {
        let driver = spawn(observer, config.channel_capacity, config.heartbeat_interval);
        (WebSocket { inner: Core::new(config.idle_timeout, now), codec }, driver)
    }

    /// The frame to put into the outbound queue for `item`. A payload the
    /// codec rejects fails with an encoding error and leaves the connection
    /// as it is.
    pub fn start_send(&self, item: C::Payload) -> (r: Result<Message, Error>)
        ensures
            match encode_frame(&self.codec, item) {
                Some(msg) => r == Ok::<Message, Error>(msg),
                None => r matches Err(Error::Encoding(_)),
            },
    {
        match self.codec.encode(item) {
            Ok(inner) => Ok(inner.into_message()),
            Err(e) => Err(e),
        }
    }

    /// Readiness to send at `now`: see [`Core::poll_ready`].
    pub fn poll_ready(&mut self, now: u64) -> (r: Result<(), Error>)
        ensures
            final(self).codec == old(self).codec,
            final(self).inner == old(self).inner.checked(now),
            old(self).inner.expired_at(now) ==> r == Err::<(), Error>(Error::Closed),
            !old(self).inner.expired_at(now) ==> r is Ok,
    {
        self.inner.poll_ready(now)
    }

    /// One receive attempt at `now`, to which the inbound queue answers
    /// `event`. A frame that fails to decode is dropped and the stream goes on.
    pub fn poll_next(&mut self, now: u64, event: Option<Message>) -> (r: Received<C::Payload>)
        ensures
            final(self).codec == old(self).codec,
            final(self).inner == old(self).inner.step(now, event).0,
            r == lift(&old(self).codec, old(self).inner.step(now, event).1),
    {
        match self.inner.poll_next(now, event) {
            Received::Item(msg) => {
                match C::Message::try_from_message(msg) {
                    Ok(inner) => match self.codec.decode(inner) {
                        Ok(payload) => Received::Item(payload),
                        Err(_) => Received::Skip,
                    },
                    Err(_) => Received::Skip,
                }
            },
            Received::Skip => Received::Skip,
            Received::End => Received::End,
        }
    }
}

/// The frames put into the outbound queue for `payloads`, in order. Payloads
/// the codec rejects send nothing.
pub open spec fn sent<C: DataCodec>(codec: &C, payloads: Seq<C::Payload>) -> Seq<Message>
    decreases payloads.len(),
{
    if payloads.len() == 0 {
        Seq::empty()
    } else {
        match encode_frame(codec, payloads.last()) {
            Some(msg) => sent(codec, payloads.drop_last()).push(msg),
            None => sent(codec, payloads.drop_last()),
        }
    }
}

/// The payloads handed up when the receiving side takes `frames` from the
/// inbound queue one after the other, all at `now`.
pub open spec fn received<C: DataCodec>(
    core: Core,
    codec: &C,
    now: u64,
    frames: Seq<Message>,
) -> Seq<C::Payload>
    decreases frames.len(),
{
    if frames.len() == 0 {
        Seq::empty()
    } else {
        let (next, yielded) = core.step(now, Some(frames.first()));
        match lift(codec, yielded) {
            Received::Item(payload) => seq![payload] + received(next, codec, now, frames.drop_first()),
            Received::Skip => received(next, codec, now, frames.drop_first()),
            Received::End => Seq::empty(),
        }
    }
}

/// Heartbeat frames between data frames change nothing of what is handed up.
pub proof fn lemma_received_push<C: DataCodec>(
    core: Core,
    codec: &C,
    now: u64,
    frames: Seq<Message>,
    msg: Message,
)
    requires
        live(core, now),
        forall|i: int| 0 <= i < frames.len() ==> !((#[trigger] frames[i])@ is Close),
        msg@.is_data(),
    ensures
        received(core, codec, now, frames.push(msg)) == match decode_frame(codec, msg) {
            Some(payload) => received(core, codec, now, frames).push(payload),
            None => received(core, codec, now, frames),
        },
    decreases frames.len(),
{
    let all = frames.push(msg);
    if frames.len() == 0 {
        assert(all.first() == msg);
        assert(all.drop_first() =~= Seq::<Message>::empty());
        let (next, yielded) = core.step(now, Some(msg));
        assert(received(next, codec, now, all.drop_first()) =~= Seq::<C::Payload>::empty());
        match decode_frame(codec, msg) {
            Some(payload) => {
                assert(received(core, codec, now, all) =~= seq![payload]);
                assert(received(core, codec, now, frames).push(payload) =~= seq![payload]);
            },
            None => {},
        }
    } else {
        let (next, yielded) = core.step(now, Some(frames.first()));
        assert(all.first() == frames.first());
        assert(all.drop_first() =~= frames.drop_first().push(msg));
        assert(!(frames[0]@ is Close));
        assert(!next.expired_at(now));
        assert(!next.finished);
        let rest = frames.drop_first();
        assert forall|i: int| 0 <= i < rest.len() implies !((#[trigger] rest[i])@ is Close) by {
            assert(rest[i] == frames[i + 1]);
        }
        lemma_received_push(next, codec, now, rest, msg);
        match lift(codec, yielded) {
            Received::Item(payload) => {
                match decode_frame(codec, msg) {
                    Some(last) => {
                        assert(seq![payload] + received(next, codec, now, rest).push(last) =~= (
                        seq![payload] + received(next, codec, now, rest)).push(last));
                    },
                    None => {},
                }
            },
            Received::Skip => {},
            Received::End => {},
        }
    }
}

/// Every frame sent for a payload is a data frame.
pub proof fn lemma_sent_is_data<C: DataCodec>(codec: &C, payloads: Seq<C::Payload>)
    ensures
        forall|i: int|
            0 <= i < sent(codec, payloads).len() ==> (#[trigger] sent(codec, payloads)[i])@.is_data(),
    decreases payloads.len(),
{
    if payloads.len() > 0 {
        let front = sent(codec, payloads.drop_last());
        lemma_sent_is_data(codec, payloads.drop_last());
        if codec.encoded(payloads.last()) is Some {
            let inner = codec.encoded(payloads.last()).unwrap();
            inner.lemma_frame_round_trip();
            assert forall|i: int| 0 <= i < sent(codec, payloads).len() implies (#[trigger] sent(
                codec,
                payloads,
            )[i])@.is_data() by {
                if i < front.len() {
                    assert(sent(codec, payloads)[i] == front[i]);
                } else {
                    assert(sent(codec, payloads)[i] == inner.framed());
                }
            }
        }
    }
}

/// Payloads sent before any receive arrive complete and in the order sent:
/// when the receiving side is live and takes the frames sent for `payloads`
/// from the queue, it hands up exactly `payloads`.
pub proof fn lemma_ordering<C: DataCodec>(core: Core, codec: &C, now: u64, payloads: Seq<C::Payload>)
    requires
        live(core, now),
        forall|i: int| 0 <= i < payloads.len() ==> codec.encoded(#[trigger] payloads[i]) is Some,
    ensures
        sent(codec, payloads).len() == payloads.len(),
        received(core, codec, now, sent(codec, payloads)) == payloads,
    decreases payloads.len(),
{
    if payloads.len() == 0 {
        assert(received(core, codec, now, sent(codec, payloads)) =~= payloads);
    } else {
        let front = payloads.drop_last();
        let last = payloads.last();
        lemma_ordering(core, codec, now, front);
        lemma_sent_is_data(codec, front);
        crate::websocket::codec::lemma_codec_round_trip(codec, last);
        let msg = encode_frame(codec, last).unwrap();
        lemma_received_push(core, codec, now, sent(codec, front), msg);
        assert(front.push(last) =~= payloads);
    }
}

/// The data frames among `wire`, in order.
pub open spec fn data_frames(wire: Seq<Message>) -> Seq<Message>
    decreases wire.len(),
{
    if wire.len() == 0 {
        Seq::empty()
    } else if wire.first()@.is_data() {
        seq![wire.first()] + data_frames(wire.drop_first())
    } else {
        data_frames(wire.drop_first())
    }
}

/// A receiving side that is live at `now`: armed, not past its deadline, and
/// with a timeout that keeps it so while frames arrive at `now`.
pub open spec fn live(core: Core, now: u64) -> bool {
    &&& !core.expired_at(now)
    &&& !core.finished
    &&& core.timeout > 0
    &&& now < u64::MAX
}

proof fn lemma_live_cores_agree<C: DataCodec>(
    a: Core,
    b: Core,
    codec: &C,
    now: u64,
    frames: Seq<Message>,
)
    requires
        live(a, now),
        live(b, now),
        a.timeout == b.timeout,
    ensures
        received(a, codec, now, frames) == received(b, codec, now, frames),
{
    if frames.len() > 0 {
        assert(a.step(now, Some(frames.first())) == b.step(now, Some(frames.first())));
    }
}

/// Heartbeat frames are filtered out in place: what is handed up for a run of
/// frames is what is handed up for the data frames among them, in the same
/// order.
pub proof fn lemma_heartbeats_invisible<C: DataCodec>(
    core: Core,
    codec: &C,
    now: u64,
    wire: Seq<Message>,
)
    requires
        live(core, now),
        forall|i: int| 0 <= i < wire.len() ==> !((#[trigger] wire[i])@ is Close),
    ensures
        received(core, codec, now, wire) == received(core, codec, now, data_frames(wire)),
    decreases wire.len(),
{
    if wire.len() > 0 {
        let first = wire.first();
        let rest = wire.drop_first();
        let (next, yielded) = core.step(now, Some(first));
        assert(!(wire[0]@ is Close));
        assert(live(next, now));
        assert forall|i: int| 0 <= i < rest.len() implies !((#[trigger] rest[i])@ is Close) by {
            assert(rest[i] == wire[i + 1]);
        }
        lemma_heartbeats_invisible(next, codec, now, rest);
        if first@.is_data() {
            let data = data_frames(wire);
            assert(data.first() == first);
            assert(data.drop_first() =~= data_frames(rest));
        } else {
            lemma_live_cores_agree(core, next, codec, now, data_frames(rest));
        }
    }
}

/// Ordering among heartbeats: whatever heartbeat frames are interleaved on the
/// wire with the frames sent for `payloads`, a live receiving side hands up
/// exactly `payloads`, in the order sent.
pub proof fn lemma_ordering_among_heartbeats<C: DataCodec>(
    core: Core,
    codec: &C,
    now: u64,
    payloads: Seq<C::Payload>,
    wire: Seq<Message>,
)
    requires
        live(core, now),
        forall|i: int| 0 <= i < payloads.len() ==> codec.encoded(#[trigger] payloads[i]) is Some,
        forall|i: int| 0 <= i < wire.len() ==> !((#[trigger] wire[i])@ is Close),
        data_frames(wire) == sent(codec, payloads),
    ensures
        received(core, codec, now, wire) == payloads,
{
    lemma_heartbeats_invisible(core, codec, now, wire);
    lemma_ordering(core, codec, now, payloads);
}

} // verus!
