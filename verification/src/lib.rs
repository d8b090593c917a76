//! Building blocks for network services: a typed, heartbeat-aware duplex
//! message transport, project access rules, geo blocking policies and metric
//! helpers.

pub mod analytics;
pub mod collections;
pub mod future;
pub mod geoip;
pub mod http;
pub mod metrics;
pub mod project;
pub mod rate_limit;
pub mod text;
pub mod websocket;
