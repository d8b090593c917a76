//! Settings of the executor that runs the tasks of an HTTP service.

use vstd::prelude::*;
use std::time::Duration;

verus! {

/// Settings for running service tasks: an optional timeout and the name the
/// tasks are metered under.
#[derive(Clone)]
pub struct ServiceTaskExecutor {
    pub timeout: Option<Duration>,
    pub metrics_name: &'static str,
}

impl ServiceTaskExecutor {
    /// No timeout and an empty task name.
    pub fn new() -> (executor: Self)
        ensures
            executor.timeout is None,
            executor.metrics_name@ == ""@,
    {
        ServiceTaskExecutor { timeout: None, metrics_name: "" }
    }

    /// Optional `task_name` metrics attribute; `None` stands for the empty
    /// name.
    pub fn name(self, metrics_name: Option<&'static str>) -> (executor: Self)
        ensures
            executor.timeout == self.timeout,
            executor.metrics_name@ == match metrics_name {
                Some(name) => name@,
                None => ""@,
            },
    {
        ServiceTaskExecutor {
            timeout: self.timeout,
            metrics_name: match metrics_name {
                Some(name) => name,
                None => "",
            },
        }
    }

    /// Apply a timeout to all service tasks to prevent them from becoming
    /// zombies. `None` is no timeout.
    pub fn timeout(self, timeout: Option<Duration>) -> (executor: Self)
        ensures
            executor.timeout == timeout,
            executor.metrics_name == self.metrics_name,
    {
        ServiceTaskExecutor { timeout, metrics_name: self.metrics_name }
    }
}

} // verus!
