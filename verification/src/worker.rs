//! The decisions of the background worker: what it does with an incoming entry,
//! with a tick of its flush timer, and with a push or flush that failed.
use vstd::prelude::*;

use crate::grpc::LogEntryRequest;
use crate::log_row::{millis_fit, request_metadata_map, request_text_entries, timestamp_millis, LogRow};
use crate::flush::BUFFER_LIST_KEY;
use crate::grpc::text_pairs;

verus! {

/// What the worker waits for.
pub enum WorkerEvent {
    /// An entry arrived from the server.
    Received(LogEntryRequest),
    /// The flush interval elapsed.
    Tick,
    /// A push or a flush failed.
    Failed(WorkerFailure),
}

/// What can fail in the worker's work.
#[derive(Clone, Copy, Debug, PartialEq, Eq, Structural)]
pub enum WorkerFailure {
    /// Pushing a row to the buffer store.
    Push,
    /// Flushing the buffered rows.
    Flush,
}

impl WorkerFailure {
    /// The message reported for the failure.
    pub fn message(&self) -> (r: String)
        ensures
            r@ == (match *self {
                WorkerFailure::Push => "Failed to push to buffer"@,
                WorkerFailure::Flush => "Failed to flush buffer"@,
            }),
    {
        match self {
            WorkerFailure::Push => String::from_str("Failed to push to buffer"),
            WorkerFailure::Flush => String::from_str("Failed to flush buffer"),
        }
    }
}

/// What the worker does next.
pub enum WorkerAction {
    /// Push the row to the end of this list of the buffer store.
    PushToBuffer { list: &'static str, row: LogRow },
    /// Flush the buffered rows.
    Flush,
    /// Report the failure and go on waiting.
    Report(WorkerFailure),
}

/// Whether the worker can handle an event: an entry's time must fit in
/// milliseconds.
pub open spec fn worker_accepts(event: WorkerEvent) -> bool {
    match event {
        WorkerEvent::Received(request) => millis_fit(request.timestamp),
        WorkerEvent::Tick => true,
        WorkerEvent::Failed(_) => true,
    }
}

/// The worker's answer to an event: an arrived entry is turned into a row and
/// pushed to the end of the buffer list; a tick flushes; a failed push or flush is reported, and
/// the worker goes on.
pub fn next_action(event: WorkerEvent) -> (a: WorkerAction)
    requires
        worker_accepts(event),
    ensures
        match event {
            WorkerEvent::Received(request) => a matches WorkerAction::PushToBuffer { list, row } && {
                &&& list == BUFFER_LIST_KEY
                &&& row.timestamp == timestamp_millis(request.timestamp)
                &&& row.level == request.level as i8
                &&& row.service_name == request.service_name
                &&& row.message == request.message
                &&& text_pairs(row.metadata@) == request_text_entries(request.metadata)
                &&& row.metadata_map() == request_metadata_map(request.metadata)
            },
            WorkerEvent::Tick => a is Flush,
            WorkerEvent::Failed(failure) => a == WorkerAction::Report(failure),
        },
{
    match event {
        WorkerEvent::Received(request) => WorkerAction::PushToBuffer { list: BUFFER_LIST_KEY, row: LogRow::from(request) },
        WorkerEvent::Tick => WorkerAction::Flush,
        WorkerEvent::Failed(failure) => WorkerAction::Report(failure),
    }
}

} // verus!
