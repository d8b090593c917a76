//! Payload codecs and the frame codecs they ride on.

use vstd::prelude::*;
use vstd::string::*;
use crate::websocket::message::{Error, Frame, Message};

verus! {

/// Wraps an encoded payload into exactly one kind of data frame and takes it
/// out again.
pub trait MessageCodec: Sized {
    /// The frame that carries this encoded payload.
    spec fn framed(self) -> Message;

    /// The encoded payload a frame carries, if the frame is of the right kind.
    spec fn unframed(msg: Message) -> Option<Self>;

    /// An encoded payload travels in a data frame and is recovered from it
    /// unchanged.
    proof fn lemma_frame_round_trip(self)
        ensures
            self.framed()@.is_data(),
            Self::unframed(self.framed()) == Some(self),
    ;

    fn into_message(self) -> (msg: Message)
        ensures
            msg == self.framed(),
    ;

    /// Fails with an invalid-payload error exactly on frames of another kind.
    fn try_from_message(msg: Message) -> (r: Result<Self, Error>)
        ensures
            match Self::unframed(msg) {
                Some(inner) => r == Ok::<Self, Error>(inner),
                None => r matches Err(Error::InvalidPayload(_)),
            },
    ;
}

/// Encodes and decodes the payload sent and received over the connection. The
/// payload format is the same in both directions.
pub trait DataCodec {
    /// Frame codec that wraps the encoded payload for transmission.
    type Message: MessageCodec;

    /// Payload type that can be sent and received.
    type Payload;

    /// The encoding of `data`, or `None` where the codec rejects it.
    spec fn encoded(&self, data: Self::Payload) -> Option<Self::Message>;

    /// The payload that `data` decodes to, or `None` where it is malformed.
    spec fn decoded(&self, data: Self::Message) -> Option<Self::Payload>;

    /// Every payload the codec accepts decodes from its own encoding.
    proof fn lemma_round_trip(&self, data: Self::Payload)
        requires
            self.encoded(data) is Some,
        ensures
            self.decoded(self.encoded(data).unwrap()) == Some(data),
    ;

    /// Fails with an encoding error exactly on the payloads it rejects.
    fn encode(&self, data: Self::Payload) -> (r: Result<Self::Message, Error>)
        ensures
            match self.encoded(data) {
                Some(msg) => r == Ok::<Self::Message, Error>(msg),
                None => r matches Err(Error::Encoding(_)),
            },
    ;

    /// Fails with a decoding error exactly on malformed input.
    fn decode(&self, data: Self::Message) -> (r: Result<Self::Payload, Error>)
        ensures
            match self.decoded(data) {
                Some(payload) => r == Ok::<Self::Payload, Error>(payload),
                None => r matches Err(Error::Decoding(_)),
            },
    ;
}

/// Frame codec for binary data: the payload travels in a binary frame.
#[derive(Debug, Clone, PartialEq, Eq)]
pub struct BinaryMessage(pub Vec<u8>);

impl BinaryMessage {
    pub fn as_bytes(&self) -> (bytes: &[u8])
        ensures
            bytes@ == self.0@,
    {
        self.0.as_slice()
    }
}

impl MessageCodec for BinaryMessage {
    open spec fn framed(self) -> Message {
        Message::Binary(self.0)
    }

    open spec fn unframed(msg: Message) -> Option<Self> {
        match msg {
            Message::Binary(data) => Some(BinaryMessage(data)),
            _ => None,
        }
    }

    proof fn lemma_frame_round_trip(self) {
    }

    fn into_message(self) -> (msg: Message) {
        Message::Binary(self.0)
    }

    fn try_from_message(msg: Message) -> (r: Result<Self, Error>)
        ensures
            r matches Err(Error::InvalidPayload(reason)) ==> reason@ == "Message is not binary"@,
    {
        match msg.into_binary() {
            Ok(data) => Ok(BinaryMessage(data)),
            Err(_) => Err(Error::invalid_payload(String::from_str("Message is not binary"))),
        }
    }
}

/// Frame codec for text data: the payload travels in a text frame.
#[derive(Debug, Clone, PartialEq, Eq)]
pub struct TextMessage(pub String);

impl TextMessage {
    pub fn as_bytes(&self) -> (bytes: &[u8])
        ensures
            bytes@ == Frame::Text(self.0@).payload(),
    {
        self.0.as_str().as_bytes()
    }
}

impl MessageCodec for TextMessage {
    open spec fn framed(self) -> Message {
        Message::Text(self.0)
    }

    open spec fn unframed(msg: Message) -> Option<Self> {
        match msg {
            Message::Text(text) => Some(TextMessage(text)),
            _ => None,
        }
    }

    proof fn lemma_frame_round_trip(self) {
    }

    fn into_message(self) -> (msg: Message) {
        Message::Text(self.0)
    }

    fn try_from_message(msg: Message) -> (r: Result<Self, Error>)
        ensures
            r matches Err(Error::InvalidPayload(reason)) ==> reason@ == "Message is not UTF-8"@,
    {
        match msg.into_text() {
            Ok(text) => Ok(TextMessage(text)),
            Err(_) => Err(Error::invalid_payload(String::from_str("Message is not UTF-8"))),
        }
    }
}

/// Codec that transmits raw bytes as they are, in binary frames.
#[derive(Debug, Clone, Copy, PartialEq, Eq)]
pub struct Binary;

impl Default for Binary {
    fn default() -> (codec: Self)
        ensures
            codec == Binary,
    {
        Binary
    }
}

impl DataCodec for Binary {
    type Message = BinaryMessage;

    type Payload = Vec<u8>;

    open spec fn encoded(&self, data: Vec<u8>) -> Option<BinaryMessage> {
        Some(BinaryMessage(data))
    }

    open spec fn decoded(&self, data: BinaryMessage) -> Option<Vec<u8>> {
        Some(data.0)
    }

    proof fn lemma_round_trip(&self, data: Vec<u8>) {
    }

    fn encode(&self, data: Vec<u8>) -> (r: Result<BinaryMessage, Error>) {
        Ok(BinaryMessage(data))
    }

    fn decode(&self, data: BinaryMessage) -> (r: Result<Vec<u8>, Error>) {
        Ok(data.0)
    }
}

/// Codec that transmits UTF-8 strings as they are, in text frames.
#[derive(Debug, Clone, Copy, PartialEq, Eq)]
pub struct Plaintext;

impl Default for Plaintext {
    fn default() -> (codec: Self)
        ensures
            codec == Plaintext,
    {
        Plaintext
    }
}

impl DataCodec for Plaintext {
    type Message = TextMessage;

    type Payload = String;

    open spec fn encoded(&self, data: String) -> Option<TextMessage> {
        Some(TextMessage(data))
    }

    open spec fn decoded(&self, data: TextMessage) -> Option<String> {
        Some(data.0)
    }

    proof fn lemma_round_trip(&self, data: String) {
    }

    fn encode(&self, data: String) -> (r: Result<TextMessage, Error>) {
        Ok(TextMessage(data))
    }

    fn decode(&self, data: TextMessage) -> (r: Result<String, Error>) {
        Ok(data.0)
    }
}

/// What a codec makes of an inbound frame: the payload, or `None` where the
/// frame is of the wrong kind or its content is malformed.
pub open spec fn decode_frame<C: DataCodec>(codec: &C, msg: Message) -> Option<C::Payload> {
    match C::Message::unframed(msg) {
        Some(inner) => codec.decoded(inner),
        None => None,
    }
}

/// The frame a codec sends for a payload, or `None` where it rejects the
/// payload.
pub open spec fn encode_frame<C: DataCodec>(codec: &C, data: C::Payload) -> Option<Message> {
    match codec.encoded(data) {
        Some(inner) => Some(inner.framed()),
        None => None,
    }
}

/// For every codec and every payload it accepts, the frame sent for the
/// payload is a data frame that decodes to the same payload.
pub proof fn lemma_codec_round_trip<C: DataCodec>(codec: &C, data: C::Payload)
    requires
        codec.encoded(data) is Some,
    ensures
        encode_frame(codec, data) is Some,
        encode_frame(codec, data).unwrap()@.is_data(),
        decode_frame(codec, encode_frame(codec, data).unwrap()) == Some(data),
{
    codec.lemma_round_trip(data);
    codec.encoded(data).unwrap().lemma_frame_round_trip();
}

/// The binary codec accepts every byte sequence and hands it through
/// unchanged, in a binary frame.
pub proof fn lemma_binary_passthrough(data: Vec<u8>)
    ensures
        encode_frame(&Binary, data) == Some(Message::Binary(data)),
        decode_frame(&Binary, Message::Binary(data)) == Some(data),
{
}

/// The plaintext codec accepts every string and hands it through unchanged,
/// in a text frame.
pub proof fn lemma_plaintext_passthrough(data: String)
    ensures
        encode_frame(&Plaintext, data) == Some(Message::Text(data)),
        decode_frame(&Plaintext, Message::Text(data)) == Some(data),
{
}

} // verus!
