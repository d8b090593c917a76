use std::sync::atomic::{AtomicUsize, Ordering};
use std::sync::Arc;

use wc_utils::websocket::codec::{
    Binary, BinaryMessage, DataCodec, MessageCodec, Plaintext, TextMessage,
};
use wc_utils::websocket::heartbeat::{
    decode_timestamp, encode_timestamp, heartbeat_message, measure_latency, Heartbeat,
};
use wc_utils::websocket::message::{CloseFrame, Error, Message};
use wc_utils::websocket::observer::{Observer, Tally};
use wc_utils::websocket::transport::{
    spawn, Core, Delivery, Driver, Failure, Inbound, Outbound, Received,
};
use wc_utils::websocket::wrapper::{Builder, Config, WebSocket};

/// Observer that counts every call, whatever it is shown.
#[derive(Clone, Default)]
struct Recorder(Arc<AtomicUsize>);

impl Observer for Recorder {
    fn inbound_message(&mut self, _msg: &Message) {
        self.0.fetch_add(1, Ordering::SeqCst);
    }

    fn outbound_message(&mut self, _msg: &Message) {
        self.0.fetch_add(1, Ordering::SeqCst);
    }

    fn latency(&mut self, _rtt: u64) {
        self.0.fetch_add(1, Ordering::SeqCst);
    }
}

/// A peer that echoes data frames and answers probes verbatim.
fn echo(frame: Message) -> Message {
    match frame {
        Message::Ping(data) => Message::Pong(data),
        other => other,
    }
}

#[test]
fn basic() {
    let (mut ws, mut driver) = WebSocket::new(Plaintext, 0);

    let frame = ws.start_send("hello world".to_string()).unwrap();
    let wire = driver.outbound_at(Outbound::Frame(frame), 1_000).unwrap();
    let back = driver
        .inbound_at(Inbound::Frame(echo(wire)), 1_001)
        .unwrap();
    assert_eq!(
        ws.poll_next(10, Some(back.message)),
        Received::Item("hello world".to_string())
    );

    // The peer disconnects: the native stream ends, then the queue.
    assert_eq!(driver.inbound_at(Inbound::Ended, 1_002), None);
    assert!(driver.is_finished());
    assert_eq!(ws.poll_next(20, None), Received::End);
    assert_eq!(ws.poll_next(30, None), Received::End);
}

#[test]
fn heartbeat() {
    let mut client = spawn(Tally::new(), 64, 500);
    let mut core = Core::new(15_000, 0);

    // The server probes every 300 ms, the client every 500 ms; 1100 ms pass.
    let mut answers = Vec::new();
    for now in [300u64, 500, 600, 900, 1_000] {
        if now % 300 == 0 {
            let probe = heartbeat_message(now);
            let delivery = client.inbound_at(Inbound::Frame(probe), now).unwrap();
            assert_eq!(delivery.latency, None);
            assert_eq!(core.poll_next(now, Some(delivery.message)), Received::Skip);
        } else {
            let probe = client.outbound_at(Outbound::Tick, now).unwrap();
            assert_eq!(probe, Message::Ping(now.to_be_bytes().to_vec()));
            answers.push(echo(probe));
        }
    }
    for (i, answer) in answers.into_iter().enumerate() {
        let sent = 500 * (i as u64 + 1);
        let delivery = client.inbound_at(Inbound::Frame(answer), sent + 7).unwrap();
        assert_eq!(delivery.latency, Some(7));
        assert_eq!(core.poll_next(sent + 7, Some(delivery.message)), Received::Skip);
    }

    let tally = &client.observer;
    assert_eq!(tally.inbound_pings, 3);
    assert_eq!(tally.outbound_pings, 2);
    assert_eq!(tally.inbound_pongs, 2);
    assert_eq!(tally.latency_reports, 2);
    assert_eq!(tally.last_latency, Some(7));
}

#[test]
fn timeout_server() {
    // The server tolerates one second of silence.
    let mut server = Core::new(1_000, 0);
    let mut driver = spawn((), 64, 5_000);
    assert_eq!(
        server.poll_next(500, Some(Message::Ping(vec![]))),
        Received::Skip
    );
    // 1.1 s of silence later the server gives up and drops the connection.
    assert_eq!(server.poll_next(1_600, None), Received::End);
    driver.shutdown();
    assert!(driver.is_finished());
    assert_eq!(driver.outbound_at(Outbound::Tick, 1_600), None);

    // The client sees the native stream end.
    let (mut client, mut client_driver) = WebSocket::new(Plaintext, 0);
    assert_eq!(client_driver.inbound_at(Inbound::Ended, 1_600), None);
    assert_eq!(client.poll_next(1_600, None), Received::End);
}

#[test]
fn timeout_client() {
    let mut client = WebSocket::<()>::builder()
        .codec(Plaintext)
        .idle_timeout(1_000)
        .build(0)
        .socket;
    assert_eq!(client.poll_ready(999), Ok(()));
    // After 1.1 s of silence a send fails and the stream has ended.
    assert_eq!(client.poll_ready(1_100), Err(Error::Closed));
    assert_eq!(
        client.poll_next(1_100, Some(Message::Text("late".to_string()))),
        Received::End
    );
    assert_eq!(client.poll_ready(0), Err(Error::Closed));
    assert_eq!(client.poll_next(0, None), Received::End);
}

/// JSON codec over `serde_json` values, riding on text frames.
struct Json;

impl DataCodec for Json {
    type Message = TextMessage;
    type Payload = serde_json::Value;

    fn encode(&self, data: serde_json::Value) -> Result<TextMessage, Error> {
        serde_json::to_string(&data)
            .map(TextMessage)
            .map_err(|e| Error::encoding(e.to_string()))
    }

    fn decode(&self, data: TextMessage) -> Result<serde_json::Value, Error> {
        serde_json::from_slice(data.as_bytes()).map_err(|e| Error::decoding(e.to_string()))
    }

    fn encoded(&self, data: serde_json::Value) -> Option<TextMessage> {
        self.encode(data).ok()
    }

    fn decoded(&self, data: TextMessage) -> Option<serde_json::Value> {
        self.decode(data).ok()
    }

    fn lemma_round_trip(&self, _data: serde_json::Value) {}
}

#[test]
fn json() {
    let mut payload = serde_json::Map::new();
    payload.insert("a".to_string(), serde_json::Value::from(42));
    let payload = serde_json::Value::Object(payload);

    let (mut ws, _driver) = WebSocket::new(Json, 0);
    let frame = ws.start_send(payload.clone()).unwrap();
    assert_eq!(frame, Message::Text("{\"a\":42}".to_string()));
    assert_eq!(ws.poll_next(1, Some(echo(frame))), Received::Item(payload));

    // Malformed content is dropped and the stream goes on.
    assert_eq!(
        ws.poll_next(2, Some(Message::Text("{".to_string()))),
        Received::Skip
    );
    assert_eq!(
        ws.poll_next(3, Some(Message::Text("7".to_string()))),
        Received::Item(serde_json::Value::from(7))
    );
}

#[test]
fn binary() {
    let payload: Vec<u8> = (0..=255u8).rev().collect();
    let (mut ws, _driver) = WebSocket::new(Binary, 0);
    let frame = ws.start_send(payload.clone()).unwrap();
    assert_eq!(frame, Message::Binary(payload.clone()));
    assert_eq!(ws.poll_next(1, Some(echo(frame))), Received::Item(payload));
}

#[test]
fn codecs_round_trip() {
    let bytes = vec![0u8, 1, 2, 255];
    let encoded = Binary.encode(bytes.clone()).unwrap();
    assert_eq!(encoded.as_bytes(), &bytes[..]);
    assert_eq!(Binary.decode(encoded).unwrap(), bytes);

    let text = "héllo".to_string();
    let encoded = Plaintext.encode(text.clone()).unwrap();
    assert_eq!(encoded.as_bytes(), text.as_bytes());
    assert_eq!(Plaintext.decode(encoded).unwrap(), text);
}

#[test]
fn frame_codecs_enforce_their_kind() {
    assert_eq!(
        BinaryMessage(vec![1, 2]).into_message(),
        Message::Binary(vec![1, 2])
    );
    assert_eq!(
        TextMessage("x".to_string()).into_message(),
        Message::Text("x".to_string())
    );
    assert_eq!(
        BinaryMessage::try_from_message(Message::Binary(vec![9])),
        Ok(BinaryMessage(vec![9]))
    );
    assert_eq!(
        BinaryMessage::try_from_message(Message::Text("x".to_string())),
        Err(Error::InvalidPayload("Message is not binary".to_string()))
    );
    assert_eq!(
        TextMessage::try_from_message(Message::Binary(vec![9])),
        Err(Error::InvalidPayload("Message is not UTF-8".to_string()))
    );
    assert_eq!(
        TextMessage::try_from_message(Message::Ping(vec![])),
        Err(Error::InvalidPayload("Message is not UTF-8".to_string()))
    );
}

#[test]
fn frames_of_the_wrong_kind_are_dropped() {
    let (mut ws, _driver) = WebSocket::new(Binary, 0);
    assert_eq!(
        ws.poll_next(1, Some(Message::Text("text".to_string()))),
        Received::Skip
    );
    assert_eq!(
        ws.poll_next(2, Some(Message::Binary(vec![1]))),
        Received::Item(vec![1])
    );
}

#[test]
fn payloads_arrive_in_the_order_sent() {
    let (mut ws, mut driver) = WebSocket::new(Plaintext, 0);
    let payloads: Vec<String> = (0..20).map(|i| format!("payload {i}")).collect();
    let mut queue = Vec::new();
    for (i, payload) in payloads.iter().enumerate() {
        let frame = ws.start_send(payload.clone()).unwrap();
        queue.push(driver.outbound_at(Outbound::Frame(frame), 5).unwrap());
        if i % 3 == 0 {
            queue.push(driver.outbound_at(Outbound::Tick, 5).unwrap());
        }
    }
    let mut received = Vec::new();
    for frame in queue {
        let delivery = driver.inbound_at(Inbound::Frame(echo(frame)), 6).unwrap();
        match ws.poll_next(6, Some(delivery.message)) {
            Received::Item(payload) => received.push(payload),
            Received::Skip => {}
            Received::End => panic!("the stream ended early"),
        }
    }
    assert_eq!(received, payloads);
}

#[test]
fn message_bytes() {
    assert_eq!(Message::Text("hé".to_string()).as_bytes(), "hé".as_bytes());
    assert_eq!(Message::Binary(vec![1, 2]).as_bytes(), &[1, 2]);
    assert_eq!(Message::Ping(vec![3]).as_bytes(), &[3]);
    assert_eq!(Message::Pong(vec![4]).as_bytes(), &[4]);
    let close = Message::Close(Some(CloseFrame {
        code: 1000,
        reason: "bye".to_string(),
    }));
    assert!(close.as_bytes().is_empty());
    assert!(Message::Close(None).as_bytes().is_empty());
    assert!(close.is_close() && !close.is_text() && !close.is_binary());
    assert!(Message::Ping(vec![]).is_ping() && Message::Pong(vec![]).is_pong());
    assert_eq!(Message::Text("t".to_string()).into_text(), Ok("t".to_string()));
    assert_eq!(
        Message::Binary(vec![1]).into_text(),
        Err(Message::Binary(vec![1]))
    );
    assert_eq!(Message::Binary(vec![1]).into_binary(), Ok(vec![1]));
    assert_eq!(
        Message::Ping(vec![1]).into_binary(),
        Err(Message::Ping(vec![1]))
    );
}

#[test]
fn error_text() {
    assert_eq!(
        Error::encoding("bad".to_string()).to_string(),
        "Encoding failed: bad"
    );
    assert_eq!(
        Error::decoding("bad".to_string()).to_string(),
        "Decoding failed: bad"
    );
    assert_eq!(
        Error::invalid_payload("bad".to_string()).to_string(),
        "Invalid payload: bad"
    );
    assert_eq!(Error::Closed.to_string(), "Transport is closed");
    assert_eq!(
        Error::transport("bad".to_string()).to_string(),
        "Transport error: bad"
    );
    assert_eq!(
        Error::internal("bad".to_string()).to_string(),
        "Internal error: bad"
    );
}

#[test]
fn timestamps_are_eight_big_endian_bytes() {
    assert_eq!(encode_timestamp(0), vec![0; 8]);
    assert_eq!(encode_timestamp(1), vec![0, 0, 0, 0, 0, 0, 0, 1]);
    assert_eq!(
        encode_timestamp(0x0102_0304_0506_0708),
        vec![1, 2, 3, 4, 5, 6, 7, 8]
    );
    assert_eq!(encode_timestamp(u64::MAX), vec![255; 8]);
    assert_eq!(decode_timestamp(&[1, 2, 3, 4, 5, 6, 7, 8]), 0x0102_0304_0506_0708);
    for value in [0u64, 1, 1_700_000_000_123, u64::MAX] {
        assert_eq!(encode_timestamp(value), value.to_be_bytes().to_vec());
        assert_eq!(decode_timestamp(&encode_timestamp(value)), value);
    }
}

#[test]
fn timestamp_of_wrong_length_reads_as_zero() {
    assert_eq!(decode_timestamp(&[]), 0);
    assert_eq!(decode_timestamp(&[1, 2, 3, 4, 5, 6, 7]), 0);
    assert_eq!(decode_timestamp(&[1, 2, 3, 4, 5, 6, 7, 8, 9]), 0);
}

#[test]
fn latency_is_measured_from_pongs_only() {
    let pong = Message::Pong(encode_timestamp(1_000));
    assert_eq!(measure_latency(&pong, 1_250), Some(250));
    // A timestamp from the future counts as no latency at all.
    assert_eq!(measure_latency(&pong, 900), Some(0));
    // A malformed payload reads as timestamp zero.
    assert_eq!(measure_latency(&Message::Pong(vec![1, 2]), 77), Some(77));
    assert_eq!(measure_latency(&Message::Ping(encode_timestamp(1_000)), 1_250), None);
    assert_eq!(measure_latency(&Message::Text("x".to_string()), 1_250), None);
}

#[test]
fn core_filters_frames_and_resets_the_deadline() {
    let mut core = Core::new(100, 0);
    assert_eq!(core.deadline, Some(100));
    assert_eq!(
        core.poll_next(50, Some(Message::Pong(vec![]))),
        Received::Skip
    );
    assert_eq!(core.deadline, Some(150));
    assert_eq!(
        core.poll_next(149, Some(Message::Binary(vec![1]))),
        Received::Item(Message::Binary(vec![1]))
    );
    assert_eq!(core.deadline, Some(249));
    assert!(!core.poll_timeout(248));
    core.reset_timeout(200);
    assert_eq!(core.deadline, Some(300));
    assert!(core.poll_timeout(300));
    assert_eq!(core.deadline, None);
    core.reset_timeout(0);
    assert_eq!(core.deadline, None);
    assert!(core.poll_timeout(0));
}

#[test]
fn close_ends_the_stream_for_good() {
    let mut core = Core::new(1_000, 0);
    assert_eq!(core.poll_next(1, Some(Message::Close(None))), Received::End);
    assert_eq!(
        core.poll_next(2, Some(Message::Text("more".to_string()))),
        Received::End
    );
    // Sending is still up to the outbound queue.
    assert_eq!(core.poll_ready(3), Ok(()));
    assert_eq!(Core::proxy(true), Ok(()));
    assert_eq!(Core::proxy(false), Err(Error::Closed));
}

#[test]
fn deadline_saturates() {
    let core = Core::new(u64::MAX, 5);
    assert_eq!(core.deadline, Some(u64::MAX));
}

#[test]
fn driver_halves_stop_on_their_triggers() {
    let mut driver: Driver<()> = spawn((), 8, 100);
    assert_eq!(driver.capacity, 8);
    assert_eq!(driver.heartbeat_interval, 100);
    assert!(!driver.is_finished());

    // The outbound queue closes: only the outbound half ends.
    assert_eq!(driver.outbound_at(Outbound::Closed, 1), None);
    assert_eq!(driver.outbound_at(Outbound::Tick, 2), None);
    assert_eq!(
        driver.outbound_at(Outbound::Frame(Message::Binary(vec![1])), 2),
        None
    );
    assert_eq!(
        driver.inbound_at(Inbound::Frame(Message::Binary(vec![1])), 3),
        Some(Delivery {
            message: Message::Binary(vec![1]),
            latency: None
        })
    );
    assert!(!driver.is_finished());

    // The native stream ends: the internal trigger stops everything.
    assert_eq!(driver.inbound_at(Inbound::Ended, 4), None);
    assert!(driver.is_finished());
    assert_eq!(
        driver.inbound_at(Inbound::Frame(Message::Binary(vec![1])), 5),
        None
    );
}

#[test]
fn driver_stamps_probes_with_the_system_clock() {
    let mut driver = spawn((), 8, 100);
    let before = std::time::SystemTime::now()
        .duration_since(std::time::UNIX_EPOCH)
        .unwrap()
        .as_millis() as u64;
    let probe = driver.outbound(Outbound::Tick).unwrap();
    let stamp = decode_timestamp(probe.as_bytes());
    assert!(probe.is_ping());
    assert!(stamp >= before && stamp <= before + 60_000);
    let delivery = driver.inbound(Inbound::Frame(echo(probe))).unwrap();
    assert!(delivery.latency.unwrap() <= 60_000);
    assert_eq!(driver.outbound(Outbound::Closed), None);
    assert_eq!(driver.inbound(Inbound::Ended), None);
}

#[test]
fn builder_assembles_the_configuration() {
    assert_eq!(
        Config::default(),
        Config {
            channel_capacity: 64,
            heartbeat_interval: 5_000,
            idle_timeout: 15_000
        }
    );
    let builder = Builder::new();
    assert_eq!(builder.config, Config::default());
    let parts = builder
        .backend("wire")
        .codec(Binary)
        .observer(Recorder::default())
        .channel_capacity(7)
        .heartbeat_interval(250)
        .idle_timeout(750)
        .build(10);
    assert_eq!(parts.backend, "wire");
    assert_eq!(parts.socket.inner, Core::new(750, 10));
    assert_eq!(parts.driver.capacity, 7);
    assert_eq!(parts.driver.heartbeat_interval, 250);
    let (ws, driver) = WebSocket::new(Plaintext, 3);
    assert_eq!(ws.inner.deadline, Some(15_003));
    assert_eq!(driver.capacity, 64);
}

#[test]
fn heartbeat_schedule_delays_after_a_late_tick() {
    let mut heartbeat = Heartbeat::new(300, 0);
    assert_eq!(heartbeat.next, 300);
    assert!(!heartbeat.poll(0));
    assert!(!heartbeat.poll(299));
    assert!(heartbeat.poll(300));
    assert_eq!(heartbeat.next, 600);
    // A tick taken late pushes the next one a full period out: no burst.
    assert!(heartbeat.poll(1_000));
    assert_eq!(heartbeat.next, 1_300);
    assert!(!heartbeat.poll(1_299));

    // Polled when due, one probe per period: three in 1100 ms at 300 ms.
    let mut heartbeat = Heartbeat::new(300, 0);
    let ticks = (0..=1_100u64).filter(|now| heartbeat.poll(*now)).count();
    assert_eq!(ticks, 3);
    let mut heartbeat = Heartbeat::new(500, 0);
    let ticks = (0..=1_100u64).filter(|now| heartbeat.poll(*now)).count();
    assert_eq!(ticks, 2);
    assert_eq!(Heartbeat::new(5, u64::MAX - 1).next, u64::MAX);
}

#[test]
fn every_forwarded_frame_is_observed() {
    let recorder = Recorder::default();
    let calls = recorder.0.clone();
    let mut driver = spawn(recorder, 8, 100);
    driver.outbound_at(Outbound::Frame(Message::Binary(vec![1])), 1);
    assert_eq!(calls.load(Ordering::SeqCst), 1);
    driver.outbound_at(Outbound::Tick, 2);
    assert_eq!(calls.load(Ordering::SeqCst), 2);
    driver.inbound_at(Inbound::Frame(Message::Text("x".to_string())), 3);
    assert_eq!(calls.load(Ordering::SeqCst), 3);
    // An answered probe is observed as a frame and as a latency.
    driver.inbound_at(Inbound::Frame(Message::Pong(encode_timestamp(1))), 4);
    assert_eq!(calls.load(Ordering::SeqCst), 5);
    // Nothing is forwarded, and nothing observed, once the bridge has stopped.
    driver.shutdown();
    driver.outbound_at(Outbound::Tick, 5);
    driver.inbound_at(Inbound::Frame(Message::Binary(vec![2])), 5);
    assert_eq!(calls.load(Ordering::SeqCst), 5);
}

#[test]
fn tally_counts_heartbeat_traffic() {
    let mut tally = Tally::new();
    tally.inbound_message(&Message::Ping(vec![]));
    tally.inbound_message(&Message::Pong(vec![]));
    tally.inbound_message(&Message::Pong(vec![]));
    tally.inbound_message(&Message::Text("x".to_string()));
    tally.outbound_message(&Message::Ping(vec![]));
    tally.outbound_message(&Message::Pong(vec![]));
    tally.latency(12);
    assert_eq!(
        (tally.inbound_pings, tally.inbound_pongs, tally.outbound_pings, tally.latency_reports),
        (1, 2, 1, 1)
    );
    assert_eq!(tally.last_latency, Some(12));
}

/// Codec that accepts even numbers only.
struct Even;

impl DataCodec for Even {
    type Message = BinaryMessage;
    type Payload = u8;

    fn encode(&self, data: u8) -> Result<BinaryMessage, Error> {
        if data % 2 == 0 {
            Ok(BinaryMessage(vec![data]))
        } else {
            Err(Error::encoding("odd".to_string()))
        }
    }

    fn decode(&self, data: BinaryMessage) -> Result<u8, Error> {
        match data.0[..] {
            [value] if value % 2 == 0 => Ok(value),
            _ => Err(Error::decoding("not one even byte".to_string())),
        }
    }

    fn encoded(&self, data: u8) -> Option<BinaryMessage> {
        self.encode(data).ok()
    }

    fn decoded(&self, data: BinaryMessage) -> Option<u8> {
        self.decode(data).ok()
    }

    fn lemma_round_trip(&self, _data: u8) {}
}

#[test]
fn rejected_payloads_fail_the_send_and_nothing_else() {
    let (mut ws, _driver) = WebSocket::new(Even, 0);
    assert_eq!(
        ws.start_send(3),
        Err(Error::Encoding("odd".to_string()))
    );
    // The connection is as it was.
    assert_eq!(ws.poll_ready(1), Ok(()));
    assert_eq!(ws.start_send(4), Ok(Message::Binary(vec![4])));
    assert_eq!(ws.poll_next(2, Some(Message::Binary(vec![4]))), Received::Item(4));
    // A payload that fails to decode is dropped.
    assert_eq!(ws.poll_next(3, Some(Message::Binary(vec![5]))), Received::Skip);
    assert_eq!(ws.poll_next(4, Some(Message::Binary(vec![6]))), Received::Item(6));
}

#[test]
fn idle_timeout_below_the_heartbeat_interval_is_accepted() {
    let parts = Builder::new()
        .codec(Binary)
        .heartbeat_interval(5_000)
        .idle_timeout(10)
        .build(0);
    assert_eq!(parts.socket.inner.deadline, Some(10));
    assert_eq!(parts.driver.heartbeat_interval, 5_000);
}

#[test]
fn failures_end_the_inbound_half() {
    let mut driver = spawn((), 8, 100);
    assert_eq!(
        driver.fail(Failure::Native("connection reset".to_string())),
        Error::Transport("connection reset".to_string())
    );
    assert!(driver.is_finished());
    assert_eq!(
        driver.inbound_at(Inbound::Frame(Message::Binary(vec![1])), 1),
        None
    );

    let mut driver = spawn((), 8, 100);
    assert_eq!(
        driver.fail(Failure::Queue("channel closed".to_string())),
        Error::Internal("channel closed".to_string())
    );
    assert!(driver.is_finished());
}
