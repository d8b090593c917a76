//! The heartbeat: probes that carry the time they were sent at, the latency
//! measured from their answers, and the schedule they are sent on.
//!
//! All instants and durations are plain millisecond counts. The caller owns
//! the clock and the timer.

use vstd::prelude::*;
use crate::websocket::message::{Frame, Message};

verus! {

/// The eight bytes of `value`, most significant first.
pub open spec fn be_bytes(value: u64) -> Seq<u8> {
    seq![
        (value >> 56) as u8,
        (value >> 48) as u8,
        (value >> 40) as u8,
        (value >> 32) as u8,
        (value >> 24) as u8,
        (value >> 16) as u8,
        (value >> 8) as u8,
        value as u8,
    ]
}

/// The number whose big-endian bytes are the first eight of `bytes`.
pub open spec fn be_value(bytes: Seq<u8>) -> u64
    recommends
        bytes.len() == 8,
{
    ((bytes[0] as u64) << 56) | ((bytes[1] as u64) << 48) | ((bytes[2] as u64) << 40) | ((
    bytes[3] as u64) << 32) | ((bytes[4] as u64) << 24) | ((bytes[5] as u64) << 16) | ((
    bytes[6] as u64) << 8) | (bytes[7] as u64)
}

/// The timestamp a heartbeat payload stands for: its big-endian value when it
/// is exactly eight bytes long, zero otherwise.
pub open spec fn timestamp_of(data: Seq<u8>) -> u64 {
    if data.len() == 8 {
        be_value(data)
    } else {
        0
    }
}

/// Decoding an encoded timestamp gives the timestamp back.
pub proof fn lemma_timestamp_round_trip(value: u64)
    ensures
        be_bytes(value).len() == 8,
        timestamp_of(be_bytes(value)) == value,
{
    let b = be_bytes(value);
    assert(b.len() == 8);
    assert(b[0] == (value >> 56) as u8 && b[1] == (value >> 48) as u8 && b[2] == (value >> 40) as u8
        && b[3] == (value >> 32) as u8 && b[4] == (value >> 24) as u8 && b[5] == (value
        >> 16) as u8 && b[6] == (value >> 8) as u8 && b[7] == value as u8);
    assert(((((value >> 56) as u8) as u64) << 56) | ((((value >> 48) as u8) as u64) << 48) | ((((
    value >> 40) as u8) as u64) << 40) | ((((value >> 32) as u8) as u64) << 32) | ((((value
        >> 24) as u8) as u64) << 24) | ((((value >> 16) as u8) as u64) << 16) | ((((value
        >> 8) as u8) as u64) << 8) | ((value as u8) as u64) == value) by (bit_vector);
}

/// Payload of a heartbeat probe sent at `timestamp`.
pub fn encode_timestamp(timestamp: u64) -> (bytes: Vec<u8>)
    ensures
        bytes@ == be_bytes(timestamp),
{
    let mut bytes: Vec<u8> = Vec::with_capacity(8);
    bytes.push((timestamp >> 56) as u8);
    bytes.push((timestamp >> 48) as u8);
    bytes.push((timestamp >> 40) as u8);
    bytes.push((timestamp >> 32) as u8);
    bytes.push((timestamp >> 24) as u8);
    bytes.push((timestamp >> 16) as u8);
    bytes.push((timestamp >> 8) as u8);
    bytes.push(timestamp as u8);
    assert(bytes@ =~= be_bytes(timestamp));
    bytes
}

/// Reads a heartbeat payload back. A payload of the wrong length is not an
/// error: it reads as zero.
pub fn decode_timestamp(data: &[u8]) -> (timestamp: u64)
    ensures
        timestamp == timestamp_of(data@),
{
    if data.len() != 8 {
        return 0;
    }
    ((data[0] as u64) << 56) | ((data[1] as u64) << 48) | ((data[2] as u64) << 40) | ((
    data[3] as u64) << 32) | ((data[4] as u64) << 24) | ((data[5] as u64) << 16) | ((
    data[6] as u64) << 8) | (data[7] as u64)
}

/// Milliseconds since the Unix epoch according to the system clock
/// (`std::time::SystemTime::now`), zero if the clock reads earlier than the
/// epoch. Nothing is claimed of the value.
#[verifier::external_body]
pub(crate) fn timestamp() -> u64 {
    std::time::SystemTime::now().duration_since(std::time::UNIX_EPOCH).unwrap_or_default().as_millis() as u64
}

/// The probe emitted by a heartbeat tick at Unix time `now`.
pub fn heartbeat_message(now: u64) -> (msg: Message)
    ensures
        msg@ == Frame::Ping(be_bytes(now)),
{
    Message::Ping(encode_timestamp(now))
}

/// Round-trip time reported for `frame` received at Unix time `now`: the time
/// elapsed since the timestamp an answered probe carries, never negative;
/// nothing for any other frame.
pub open spec fn latency_of(frame: Frame, now: u64) -> Option<u64> {
    match frame {
        Frame::Pong(data) => Some(
            if now >= timestamp_of(data) {
                (now - timestamp_of(data)) as u64
            } else {
                0
            },
        ),
        _ => None,
    }
}

pub fn measure_latency(msg: &Message, now: u64) -> (rtt: Option<u64>)
    ensures
        rtt == latency_of(msg@, now),
{
    match msg {
        Message::Pong(data) => Some(now.saturating_sub(decode_timestamp(data.as_slice()))),
        _ => None,
    }
}


/// `now + timeout`, capped at the largest instant.
pub open spec fn deadline_after(now: u64, timeout: u64) -> u64 {
    if now + timeout > u64::MAX {
        u64::MAX
    } else {
        (now + timeout) as u64
    }
}

/// Schedule of the heartbeat generator: a periodic timer that, when a tick is
/// taken late, waits a full period from then rather than bursting. The
/// caller sleeps until `next` and polls.
#[derive(Debug, Clone, Copy, PartialEq, Eq, Structural)]
pub struct Heartbeat {
    /// Time between two ticks.
    pub period: u64,
    /// Instant at which the next tick is due.
    pub next: u64,
}

impl Heartbeat {
    /// State after a poll at `now`, and whether the poll takes a tick.
    pub open spec fn polled(self, now: u64) -> (Heartbeat, bool) {
        if now >= self.next {
            (Heartbeat { period: self.period, next: deadline_after(now, self.period) }, true)
        } else {
            (self, false)
        }
    }

    /// The number of ticks taken by polls at the instants `polls`, one after
    /// the other.
    pub open spec fn ticks(self, polls: Seq<u64>) -> nat
        decreases polls.len(),
    {
        if polls.len() == 0 {
            0
        } else {
            let (next, tick) = self.polled(polls.first());
            next.ticks(polls.drop_first()) + if tick {
                1nat
            } else {
                0nat
            }
        }
    }

    /// The generator started at `now`.
    pub open spec fn new_spec(period: u64, now: u64) -> Heartbeat {
        Heartbeat { period, next: deadline_after(now, period) }
    }

    /// A generator started at `now`: the first tick is due one full period
    /// later.
    pub fn new(period: u64, now: u64) -> (heartbeat: Self)
        ensures
            heartbeat == Heartbeat::new_spec(period, now),
    {
        Heartbeat { period, next: now.saturating_add(period) }
    }

    /// Whether a tick is due at `now`. A tick taken pushes the next one a
    /// full period past `now`.
    pub fn poll(&mut self, now: u64) -> (tick: bool)
        ensures
            (*final(self), tick) == old(self).polled(now),
    {
        if now >= self.next {
            self.next = now.saturating_add(self.period);
            true
        } else {
            false
        }
    }
}

/// Polls at instants that never go back, none of them after `until`.
pub open spec fn ordered_until(polls: Seq<u64>, until: u64) -> bool {
    &&& forall|i: int, j: int| 0 <= i <= j < polls.len() ==> polls[i] <= polls[j]
    &&& forall|i: int| 0 <= i < polls.len() ==> polls[i] <= until
}

proof fn lemma_ticks_bound(heartbeat: Heartbeat, polls: Seq<u64>, until: u64)
    requires
        heartbeat.period > 0,
        until + heartbeat.period <= u64::MAX,
        ordered_until(polls, until),
    ensures
        heartbeat.next > until ==> heartbeat.ticks(polls) == 0,
        heartbeat.next <= until ==> heartbeat.ticks(polls) * heartbeat.period <= until
            - heartbeat.next + heartbeat.period,
    decreases polls.len(),
{
    let period = heartbeat.period;
    if polls.len() == 0 {
        assert(0 * period == 0) by (nonlinear_arith);
    } else {
        let first = polls.first();
        let rest = polls.drop_first();
        let (next, tick) = heartbeat.polled(first);
        assert(ordered_until(rest, until)) by {
            assert forall|i: int, j: int| 0 <= i <= j < rest.len() implies rest[i] <= rest[j] by {
                assert(rest[i] == polls[i + 1] && rest[j] == polls[j + 1]);
            }
            assert forall|i: int| 0 <= i < rest.len() implies rest[i] <= until by {
                assert(rest[i] == polls[i + 1]);
            }
        }
        assert(first <= until);
        lemma_ticks_bound(next, rest, until);
        let k = next.ticks(rest);
        if tick {
            assert(next.next == first + period);
            assert((k + 1) * period == k * period + period) by (nonlinear_arith);
        }
    }
}

/// Heartbeat bound: a generator with period `H` started at `start` emits, up
/// to the instant `until`, at most `floor((until - start) / H)` probes,
/// however it is polled.
pub proof fn lemma_heartbeat_count(period: u64, start: u64, polls: Seq<u64>, until: u64)
    requires
        period > 0,
        start <= until,
        until + period <= u64::MAX,
        ordered_until(polls, until),
    ensures
        Heartbeat::new_spec(period, start).ticks(polls) <= (until - start) / (period as int),
{
    let heartbeat = Heartbeat::new_spec(period, start);
    lemma_ticks_bound(heartbeat, polls, until);
    let k = heartbeat.ticks(polls);
    let span = until - start;
    if heartbeat.next <= until {
        assert(k * period <= span);
        assert(k <= span / (period as int)) by (nonlinear_arith)
            requires
                k * period <= span,
                period > 0,
        ;
    } else {
        assert(0 <= span / (period as int)) by (nonlinear_arith)
            requires
                span >= 0,
                period > 0,
        ;
    }
}

/// The instants `start + H`, `start + 2H`, ..., `start + nH`.
pub open spec fn prompt_polls(period: u64, start: u64, n: nat) -> Seq<u64> {
    Seq::new(n, |i: int| (start + (i + 1) * period) as u64)
}

/// Heartbeat count: a generator with period `H` that is polled exactly when
/// each tick is due emits one probe per period: `n` probes by `start + nH`.
pub proof fn lemma_heartbeat_prompt(period: u64, start: u64, n: nat)
    requires
        period > 0,
        start + (n + 1) * period <= u64::MAX,
    ensures
        Heartbeat::new_spec(period, start).ticks(prompt_polls(period, start, n)) == n,
    decreases n,
{
    let polls = prompt_polls(period, start, n);
    let heartbeat = Heartbeat::new_spec(period, start);
    assert((n + 1) * period >= period) by (nonlinear_arith)
        requires
            period > 0,
            n >= 0,
    ;
    if n > 0 {
        assert((0 + 1) * period == period) by (nonlinear_arith);
        assert(polls.first() == start + period);
        let (next, tick) = heartbeat.polled(polls.first());
        assert(tick);
        let shifted = (start + period) as u64;
        assert(start + (n + 1) * period == shifted + ((n - 1) + 1) * period) by (nonlinear_arith)
            requires
                shifted == start + period,
        ;
        assert(next == Heartbeat::new_spec(period, shifted));
        assert(polls.drop_first() =~= prompt_polls(period, shifted, (n - 1) as nat)) by {
            assert forall|i: int| 0 <= i < n - 1 implies polls.drop_first()[i] == prompt_polls(
                period,
                shifted,
                (n - 1) as nat,
            )[i] by {
                assert(start + ((i + 1) + 1) * period == shifted + (i + 1) * period)
                    by (nonlinear_arith)
                    requires
                        shifted == start + period,
                ;
                assert(polls.drop_first()[i] == polls[i + 1]);
            }
        }
        lemma_heartbeat_prompt(period, shifted, (n - 1) as nat);
    }
}

} // verus!
