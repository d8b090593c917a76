//! Collection of analytics events into batches and the decisions of the task
//! that exports them.

pub mod batch;
pub mod collectors;
pub mod exporters;
pub mod traits;
