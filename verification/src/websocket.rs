//! Message-oriented duplex transport: frames, payload codecs, heartbeat and
//! idle-timeout bookkeeping, and the typed facade built on top of them.

pub mod codec;
pub mod heartbeat;
pub mod message;
pub mod observer;
pub mod transport;
pub mod wrapper;
