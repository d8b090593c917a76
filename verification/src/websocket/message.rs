//! Frames exchanged over a duplex connection and the error taxonomy of the
//! transport.

use vstd::prelude::*;
use vstd::string::*;
use vstd::utf8::*;

verus! {

/// Failure of a transport operation. Every variant but `Closed` carries a
/// human-readable description of the cause.
#[derive(Debug, Clone, PartialEq, Eq)]
pub enum Error {
    /// Payload serialization failed.
    Encoding(String),
    /// Payload deserialization failed.
    Decoding(String),
    /// A frame arrived in a kind the active codec does not expect.
    InvalidPayload(String),
    /// The operation was attempted after the transport ended.
    Closed,
    /// The native connection reported an I/O error.
    Transport(String),
    /// Unexpected failure while bridging the queues.
    Internal(String),
}

impl Error {
    pub fn encoding(err: String) -> (e: Self)
        ensures
            e == Error::Encoding(err),
    {
        Error::Encoding(err)
    }

    pub fn decoding(err: String) -> (e: Self)
        ensures
            e == Error::Decoding(err),
    {
        Error::Decoding(err)
    }

    pub fn transport(err: String) -> (e: Self)
        ensures
            e == Error::Transport(err),
    {
        Error::Transport(err)
    }

    pub fn internal(err: String) -> (e: Self)
        ensures
            e == Error::Internal(err),
    {
        Error::Internal(err)
    }

    pub fn invalid_payload(err: String) -> (e: Self)
        ensures
            e == Error::InvalidPayload(err),
    {
        Error::InvalidPayload(err)
    }

    /// The text shown for this error: a fixed prefix per variant followed by
    /// the description it carries.
    pub open spec fn text(self) -> Seq<char> {
        match self {
            Error::Encoding(m) => "Encoding failed: "@ + m@,
            Error::Decoding(m) => "Decoding failed: "@ + m@,
            Error::InvalidPayload(m) => "Invalid payload: "@ + m@,
            Error::Closed => "Transport is closed"@,
            Error::Transport(m) => "Transport error: "@ + m@,
            Error::Internal(m) => "Internal error: "@ + m@,
        }
    }

    pub fn to_string(&self) -> (s: String)
        ensures
            s@ == self.text(),
    {
        match self {
            Error::Encoding(m) => String::from_str("Encoding failed: ").concat(m.as_str()),
            Error::Decoding(m) => String::from_str("Decoding failed: ").concat(m.as_str()),
            Error::InvalidPayload(m) => String::from_str("Invalid payload: ").concat(m.as_str()),
            Error::Closed => String::from_str("Transport is closed"),
            Error::Transport(m) => String::from_str("Transport error: ").concat(m.as_str()),
            Error::Internal(m) => String::from_str("Internal error: ").concat(m.as_str()),
        }
    }
}

/// Status code and reason carried by a closing frame.
#[derive(Debug, Clone, PartialEq, Eq)]
pub struct CloseFrame {
    pub code: u16,
    pub reason: String,
}

/// One unit of duplex traffic.
#[derive(Debug, Clone, PartialEq, Eq)]
pub enum Message {
    Text(String),
    Binary(Vec<u8>),
    Ping(Vec<u8>),
    Pong(Vec<u8>),
    Close(Option<CloseFrame>),
}

/// Mathematical value of a [`Message`].
pub ghost enum Frame {
    Text(Seq<char>),
    Binary(Seq<u8>),
    Ping(Seq<u8>),
    Pong(Seq<u8>),
    Close(Option<(u16, Seq<char>)>),
}

impl Frame {
    /// The bytes a frame carries: the UTF-8 encoding of a text, the data of a
    /// binary, ping or pong frame, nothing for a closing frame.
    pub open spec fn payload(self) -> Seq<u8> {
        match self {
            Frame::Text(s) => encode_utf8(s),
            Frame::Binary(b) => b,
            Frame::Ping(b) => b,
            Frame::Pong(b) => b,
            Frame::Close(_) => Seq::empty(),
        }
    }

    /// Text and binary frames carry application data.
    pub open spec fn is_data(self) -> bool {
        self is Text || self is Binary
    }

    /// Ping and pong frames only serve liveness and latency bookkeeping.
    pub open spec fn is_heartbeat(self) -> bool {
        self is Ping || self is Pong
    }
}

impl View for Message {
    type V = Frame;

    open spec fn view(&self) -> Frame {
        match *self {
            Message::Text(s) => Frame::Text(s@),
            Message::Binary(b) => Frame::Binary(b@),
            Message::Ping(b) => Frame::Ping(b@),
            Message::Pong(b) => Frame::Pong(b@),
            Message::Close(None) => Frame::Close(None),
            Message::Close(Some(c)) => Frame::Close(Some((c.code, c.reason@))),
        }
    }
}

impl Message {
    pub fn as_bytes(&self) -> (bytes: &[u8])
        ensures
            bytes@ == self@.payload(),
    {
        match self {
            Message::Binary(data) => data.as_slice(),
            Message::Text(data) => data.as_str().as_bytes(),
            Message::Ping(data) => data.as_slice(),
            Message::Pong(data) => data.as_slice(),
            Message::Close(_) => &[],
        }
    }

    pub fn is_text(&self) -> (b: bool)
        ensures
            b == (self@ is Text),
    {
        matches!(self, Message::Text(_))
    }

    pub fn is_binary(&self) -> (b: bool)
        ensures
            b == (self@ is Binary),
    {
        matches!(self, Message::Binary(_))
    }

    pub fn is_ping(&self) -> (b: bool)
        ensures
            b == (self@ is Ping),
    {
        matches!(self, Message::Ping(_))
    }

    pub fn is_pong(&self) -> (b: bool)
        ensures
            b == (self@ is Pong),
    {
        matches!(self, Message::Pong(_))
    }

    pub fn is_close(&self) -> (b: bool)
        ensures
            b == (self@ is Close),
    {
        matches!(self, Message::Close(_))
    }

    /// The text of a text frame; any other frame is handed back untouched.
    pub fn into_text(self) -> (r: Result<String, Message>)
        ensures
            match self {
                Message::Text(s) => r == Ok::<String, Message>(s),
                _ => r == Err::<String, Message>(self),
            },
    {
        match self {
            Message::Text(s) => Ok(s),
            other => Err(other),
        }
    }

    /// The data of a binary frame; any other frame is handed back untouched.
    pub fn into_binary(self) -> (r: Result<Vec<u8>, Message>)
        ensures
            match self {
                Message::Binary(b) => r == Ok::<Vec<u8>, Message>(b),
                _ => r == Err::<Vec<u8>, Message>(self),
            },
    {
        match self {
            Message::Binary(b) => Ok(b),
            other => Err(other),
        }
    }
}

} // verus!
