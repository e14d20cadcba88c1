use vstd::prelude::*;

verus! {

/// Sort order of a list.
#[derive(Clone, Copy, Debug, PartialEq, Eq, Structural)]
pub enum Ordering {
    Ascending,
    Descending,
}

/// Delivery status of a message or attempt.
#[derive(Clone, Copy, Debug, PartialEq, Eq, Structural)]
pub enum MessageStatus {
    Success,
    Pending,
    Fail,
    Sending,
}

/// Class of the HTTP status code that an endpoint answered with.
#[derive(Clone, Copy, Debug, PartialEq, Eq, Structural)]
pub enum StatusCodeClass {
    CodeNone,
    Code1xx,
    Code2xx,
    Code3xx,
    Code4xx,
    Code5xx,
}

/// State of a background task.
#[derive(Clone, Copy, Debug, PartialEq, Eq, Structural)]
pub enum BackgroundTaskStatus {
    Running,
    Finished,
    Failed,
}

/// Kind of a background task.
#[derive(Clone, Copy, Debug, PartialEq, Eq, Structural)]
pub enum BackgroundTaskType {
    EndpointReplay,
    EndpointRecover,
    ApplicationStats,
    MessageBroadcast,
    SdkGenerate,
    EventTypeAggregate,
    ApplicationPurgeContent,
}

} // verus!
