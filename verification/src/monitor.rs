//! The monitor of the two long-running tasks of the client.

use vstd::prelude::*;

verus! {

/// A task that the monitor watches. Each is meant to run for as long as the
/// client does; the monitor reports the first that ends, and ends with it.
#[derive(Clone, Copy, Debug, PartialEq, Eq, Structural)]
pub enum MonitoredTask {
    /// The main loop, which drives the sync.
    MainLoop,
    /// The worker, which serves requests.
    Worker,
}

/// How a task ended.
pub enum TaskEnd {
    /// It returned without an error.
    Finished,
    /// It returned an error, described by the text.
    Failed(String),
    /// It could not be joined, for the reason that the text describes.
    JoinFailed(String),
}

/// The report on the end of a task.
pub open spec fn end_report(task: MonitoredTask, end: TaskEnd) -> Seq<char> {
    match (task, end) {
        (MonitoredTask::MainLoop, TaskEnd::Finished) => "BUG: main async loop task ended unexpectedly!"@,
        (MonitoredTask::MainLoop, TaskEnd::Failed(error)) => "Main async loop task ended with error:\n --> "@
            + error@,
        (MonitoredTask::MainLoop, TaskEnd::JoinFailed(error)) => "BUG: failed to join main async loop task: "@
            + error@,
        (MonitoredTask::Worker, TaskEnd::Finished) => "BUG: async worker task ended unexpectedly!"@,
        (MonitoredTask::Worker, TaskEnd::Failed(error)) => "async worker task ended with error:\n --> "@
            + error@,
        (MonitoredTask::Worker, TaskEnd::JoinFailed(error)) => "BUG: failed to join async worker task: "@
            + error@,
    }
}

/// Returns the report on the first task that ended.
pub fn on_task_end(task: MonitoredTask, end: TaskEnd) -> (report: String)
    ensures
        report@ == end_report(task, end),
{
    match (task, end) {
        (MonitoredTask::MainLoop, TaskEnd::Finished) => {
            "BUG: main async loop task ended unexpectedly!".to_string()
        },
        (MonitoredTask::MainLoop, TaskEnd::Failed(error)) => {
            "Main async loop task ended with error:\n --> ".to_string().concat(error.as_str())
        },
        (MonitoredTask::MainLoop, TaskEnd::JoinFailed(error)) => {
            "BUG: failed to join main async loop task: ".to_string().concat(error.as_str())
        },
        (MonitoredTask::Worker, TaskEnd::Finished) => {
            "BUG: async worker task ended unexpectedly!".to_string()
        },
        (MonitoredTask::Worker, TaskEnd::Failed(error)) => {
            "async worker task ended with error:\n --> ".to_string().concat(error.as_str())
        },
        (MonitoredTask::Worker, TaskEnd::JoinFailed(error)) => {
            "BUG: failed to join async worker task: ".to_string().concat(error.as_str())
        },
    }
}

} // verus!
