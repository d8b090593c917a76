//! Metric helpers: label names packed into integers, value buckets, and the
//! bookkeeping of metered futures and allocator statistics.

pub mod bucket;
pub mod future;
pub mod jemalloc;
pub mod label;
