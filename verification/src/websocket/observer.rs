//! The observation hook and what it is shown.

use vstd::prelude::*;
use crate::websocket::message::{Frame, Message};

verus! {

/// One thing shown to an observer.
pub ghost enum Observation {
    /// A frame read from the native connection.
    Inbound(Frame),
    /// A frame about to be written to the native connection.
    Outbound(Frame),
    /// A measured round-trip time, in milliseconds.
    Latency(u64),
}

/// Hook for monitoring the traffic of one connection. `()` is the observer
/// that observes nothing. The hooks run on the hot path and must not block.
///
/// An observer may keep a record of what it is shown. One that says so
/// (`records`) has every call add exactly one entry to what it has seen, so
/// that what the bridge reports can be read off the record.
pub trait Observer {
    /// Whether this observer keeps a record of what it is shown.
    open spec fn records(&self) -> bool {
        false
    }

    /// Everything this observer has been shown, oldest first.
    open spec fn seen(&self) -> Seq<Observation> {
        Seq::empty()
    }

    /// Called with every frame read from the native connection.
    fn inbound_message(&mut self, msg: &Message)
        ensures
            final(self).records() == old(self).records(),
            old(self).records() ==> final(self).seen() == old(self).seen().push(
                Observation::Inbound(msg@),
            ),
    ;

    /// Called with every frame about to be written to the native connection.
    fn outbound_message(&mut self, msg: &Message)
        ensures
            final(self).records() == old(self).records(),
            old(self).records() ==> final(self).seen() == old(self).seen().push(
                Observation::Outbound(msg@),
            ),
    ;

    /// Called with the round-trip time, in milliseconds, measured from an
    /// answered heartbeat probe.
    fn latency(&mut self, rtt: u64)
        ensures
            final(self).records() == old(self).records(),
            old(self).records() ==> final(self).seen() == old(self).seen().push(
                Observation::Latency(rtt),
            ),
    ;
}

impl Observer for () {
    fn inbound_message(&mut self, _msg: &Message) {
    }

    fn outbound_message(&mut self, _msg: &Message) {
    }

    fn latency(&mut self, _rtt: u64) {
    }
}

/// The kinds of observation a [`Tally`] counts.
pub ghost enum Tallied {
    InboundPing,
    InboundPong,
    OutboundPing,
    Latency,
}

impl Observation {
    /// Whether this observation is of the kind `what`.
    pub open spec fn is_kind(self, what: Tallied) -> bool {
        match what {
            Tallied::InboundPing => self matches Observation::Inbound(Frame::Ping(_)),
            Tallied::InboundPong => self matches Observation::Inbound(Frame::Pong(_)),
            Tallied::OutboundPing => self matches Observation::Outbound(Frame::Ping(_)),
            Tallied::Latency => self is Latency,
        }
    }
}

/// The number of entries of `seen` that are of the kind `what`.
pub open spec fn count(seen: Seq<Observation>, what: Tallied) -> nat
    decreases seen.len(),
{
    if seen.len() == 0 {
        0
    } else {
        count(seen.drop_last(), what) + if seen.last().is_kind(what) {
            1nat
        } else {
            0nat
        }
    }
}

/// `n`, capped at the largest counter value.
pub open spec fn capped(n: nat) -> u64 {
    if n > u64::MAX {
        u64::MAX
    } else {
        n as u64
    }
}

/// Observer that counts heartbeat traffic and remembers the last latency.
pub struct Tally {
    pub inbound_pings: u64,
    pub inbound_pongs: u64,
    pub outbound_pings: u64,
    pub latency_reports: u64,
    pub last_latency: Option<u64>,
    pub record: Ghost<Seq<Observation>>,
}

impl Tally {
    /// Every counter is the number of matching entries of the record.
    pub open spec fn well_formed(&self) -> bool {
        &&& self.inbound_pings == capped(count(self.record@, Tallied::InboundPing))
        &&& self.inbound_pongs == capped(count(self.record@, Tallied::InboundPong))
        &&& self.outbound_pings == capped(count(self.record@, Tallied::OutboundPing))
        &&& self.latency_reports == capped(count(self.record@, Tallied::Latency))
    }

    pub fn new() -> (tally: Self)
        ensures
            tally.well_formed(),
            tally.record@ == Seq::<Observation>::empty(),
            tally.inbound_pings == 0 && tally.inbound_pongs == 0 && tally.outbound_pings == 0
                && tally.latency_reports == 0,
            tally.last_latency is None,
    {
        Tally {
            inbound_pings: 0,
            inbound_pongs: 0,
            outbound_pings: 0,
            latency_reports: 0,
            last_latency: None,
            record: Ghost(Seq::empty()),
        }
    }
}

/// One more observation raises the count of its kind by one and no other.
pub proof fn lemma_count_push(seen: Seq<Observation>, o: Observation, what: Tallied)
    ensures
        count(seen.push(o), what) == count(seen, what) + if o.is_kind(what) {
            1nat
        } else {
            0nat
        },
{
    assert(seen.push(o).drop_last() =~= seen);
    assert(seen.push(o).last() == o);
}

/// One more observation raises the count of its kind by one, whichever kind
/// is counted.
pub proof fn lemma_count_push_all(seen: Seq<Observation>, o: Observation)
    ensures
        forall|what: Tallied|
            #[trigger] count(seen.push(o), what) == count(seen, what) + if o.is_kind(what) {
                1nat
            } else {
                0nat
            },
{
    assert forall|what: Tallied|
        #[trigger] count(seen.push(o), what) == count(seen, what) + if o.is_kind(what) {
            1nat
        } else {
            0nat
        } by {
        lemma_count_push(seen, o, what);
    }
}

impl Observer for Tally {
    open spec fn records(&self) -> bool {
        true
    }

    open spec fn seen(&self) -> Seq<Observation> {
        self.record@
    }

    fn inbound_message(&mut self, msg: &Message)
        ensures
            old(self).well_formed() ==> final(self).well_formed(),
            final(self).last_latency == old(self).last_latency,
    {
        proof {
            lemma_count_push_all(self.record@, Observation::Inbound(msg@));
        }
        match msg {
            Message::Ping(_) => {
                self.inbound_pings = self.inbound_pings.saturating_add(1);
            },
            Message::Pong(_) => {
                self.inbound_pongs = self.inbound_pongs.saturating_add(1);
            },
            _ => {},
        }
        self.record = Ghost(self.record@.push(Observation::Inbound(msg@)));
    }

    fn outbound_message(&mut self, msg: &Message)
        ensures
            old(self).well_formed() ==> final(self).well_formed(),
            final(self).last_latency == old(self).last_latency,
    {
        proof {
            lemma_count_push_all(self.record@, Observation::Outbound(msg@));
        }
        match msg {
            Message::Ping(_) => {
                self.outbound_pings = self.outbound_pings.saturating_add(1);
            },
            _ => {},
        }
        self.record = Ghost(self.record@.push(Observation::Outbound(msg@)));
    }

    fn latency(&mut self, rtt: u64)
        ensures
            old(self).well_formed() ==> final(self).well_formed(),
            final(self).last_latency == Some(rtt),
    {
        proof {
            lemma_count_push_all(self.record@, Observation::Latency(rtt));
        }
        self.latency_reports = self.latency_reports.saturating_add(1);
        self.last_latency = Some(rtt);
        self.record = Ghost(self.record@.push(Observation::Latency(rtt)));
    }
}

} // verus!
