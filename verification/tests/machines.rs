use log_pulse::batch_insert::{LOG_TABLE, BatchInsert, InsertAction, InsertError, InsertEvent, InsertPhase};
use log_pulse::grpc::{LogEntryRequest, Timestamp};
use log_pulse::sdk::{
    client_endpoint, event_entry, level_code, timestamp_since_epoch, EventLevel, StreamAction, StreamEvent, StreamPhase,
    StreamSession, CALL_BUFFER_CAPACITY, RECONNECT_PAUSE_SECONDS,
};
use log_pulse::flush::{BUFFER_LIST_KEY, BufferFlush, FlushAction, FlushError, FlushEvent, FlushPhase};
use log_pulse::log_row::LogRow;
use log_pulse::worker::{next_action, WorkerAction, WorkerEvent, WorkerFailure};

fn entry(message: &str) -> LogEntryRequest {
    LogEntryRequest {
        timestamp: Some(Timestamp { seconds: 1, nanos: 500_000_000 }),
        level: 1,
        service_name: "svc".to_string(),
        message: message.to_string(),
        metadata: None,
    }
}

#[test]
fn batch_insert_writes_every_row_then_commits() {
    let (mut b, a) = BatchInsert::start(3);
    assert_eq!(a, InsertAction::Open { table: LOG_TABLE });
    assert_eq!(LOG_TABLE, "logs");
    assert_eq!(b.step(InsertEvent::Opened(true)), InsertAction::Write(0));
    assert_eq!(b.step(InsertEvent::Written(true)), InsertAction::Write(1));
    assert_eq!(b.step(InsertEvent::Written(false)), InsertAction::Write(2));
    assert_eq!(b.step(InsertEvent::Written(true)), InsertAction::Commit);
    assert_eq!(b.step(InsertEvent::Committed(true)), InsertAction::Finish(Ok(())));
    assert_eq!(b.phase(), InsertPhase::Done);
}

#[test]
fn batch_insert_open_failure() {
    let (mut b, _) = BatchInsert::start(2);
    assert_eq!(b.step(InsertEvent::Opened(false)), InsertAction::Finish(Err(InsertError::Open)));
    assert_eq!(InsertError::Open.message(), "Clickhouse insert error");
}

#[test]
fn batch_insert_commit_failure_and_empty_batch() {
    let (mut b, _) = BatchInsert::start(0);
    assert_eq!(b.step(InsertEvent::Opened(true)), InsertAction::Commit);
    assert_eq!(b.step(InsertEvent::Committed(false)), InsertAction::Finish(Err(InsertError::Commit)));
    assert_eq!(
        InsertError::Commit.message(),
        "ClickHouse failed to commit batch to ClickHouse"
    );
}

#[test]
fn worker_pushes_rows_and_flushes_on_tick() {
    match next_action(WorkerEvent::Received(entry("hello"))) {
        WorkerAction::PushToBuffer { list, row } => {
            assert_eq!(list, "ingestor:logs");
            assert_eq!(row.timestamp, 1500);
            assert_eq!(row.level, 1);
            assert_eq!(row.message, "hello");
        }
        _ => panic!("expected a push"),
    }
    assert!(matches!(next_action(WorkerEvent::Tick), WorkerAction::Flush));
    assert!(matches!(
        next_action(WorkerEvent::Failed(WorkerFailure::Flush)),
        WorkerAction::Report(WorkerFailure::Flush)
    ));
    assert!(matches!(
        next_action(WorkerEvent::Failed(WorkerFailure::Push)),
        WorkerAction::Report(WorkerFailure::Push)
    ));
    assert_eq!(WorkerFailure::Push.message(), "Failed to push to buffer");
    assert_eq!(WorkerFailure::Flush.message(), "Failed to flush buffer");
}

fn rows(n: i64) -> Vec<LogRow> {
    (0..n)
        .map(|i| LogRow {
            timestamp: i,
            level: 1,
            service_name: "svc".to_string(),
            message: format!("m{i}"),
            metadata: Vec::new(),
        })
        .collect()
}

#[test]
fn flush_inserts_full_batches_until_a_short_one() {
    let (mut f, a) = BufferFlush::start(2);
    assert_eq!(a, FlushAction::Pop { list: BUFFER_LIST_KEY, count: 2 });
    assert_eq!(f.step(FlushEvent::Popped(rows(2))), FlushAction::Insert(rows(2)));
    assert_eq!(f.phase(), FlushPhase::Inserting { full: true });
    assert_eq!(f.step(FlushEvent::Inserted), FlushAction::Pop { list: BUFFER_LIST_KEY, count: 2 });
    assert_eq!(f.step(FlushEvent::Popped(rows(1))), FlushAction::Insert(rows(1)));
    assert_eq!(f.step(FlushEvent::Inserted), FlushAction::Finish(Ok(())));
    assert_eq!(f.phase(), FlushPhase::Done);
}

#[test]
fn flush_of_an_empty_buffer() {
    assert_eq!(BUFFER_LIST_KEY, "ingestor:logs");
    let (mut f, _) = BufferFlush::start(10);
    assert_eq!(f.step(FlushEvent::Popped(Vec::new())), FlushAction::Finish(Ok(())));
    let (f, a) = BufferFlush::start(0);
    assert_eq!(a, FlushAction::Finish(Err(FlushError::NoCapacity)));
    assert_eq!(FlushError::NoCapacity.message(), "Cannot flush logs with a batch capacity of zero");
    assert_eq!(f.phase(), FlushPhase::Done);
}

#[test]
fn flush_puts_back_a_batch_that_failed() {
    let (mut f, _) = BufferFlush::start(3);
    assert_eq!(f.step(FlushEvent::Popped(rows(3))), FlushAction::Insert(rows(3)));
    assert_eq!(f.step(FlushEvent::InsertFailed(rows(3))), FlushAction::Restore { list: BUFFER_LIST_KEY, rows: rows(3) });
    assert_eq!(f.step(FlushEvent::Restored(true)), FlushAction::Finish(Err(FlushError::Insert)));
    let (mut f, _) = BufferFlush::start(3);
    f.step(FlushEvent::Popped(rows(1)));
    f.step(FlushEvent::InsertFailed(rows(1)));
    assert_eq!(f.step(FlushEvent::Restored(false)), FlushAction::Finish(Err(FlushError::Restore)));
    let (mut f, _) = BufferFlush::start(3);
    assert_eq!(f.step(FlushEvent::PopFailed), FlushAction::Finish(Err(FlushError::Pop)));
    assert_eq!(FlushError::Pop.message(), "Cannot pop logs from the buffer");
    assert_eq!(
        FlushError::Insert.message(),
        "Cannot insert logs; they were put back into the buffer"
    );
    assert_eq!(
        FlushError::Restore.message(),
        "Cannot insert logs nor put them back into the buffer"
    );
}

#[test]
fn level_codes() {
    assert_eq!(level_code(EventLevel::Trace), 0);
    assert_eq!(level_code(EventLevel::Debug), 0);
    assert_eq!(level_code(EventLevel::Info), 1);
    assert_eq!(level_code(EventLevel::Warn), 2);
    assert_eq!(level_code(EventLevel::Error), 3);
}

#[test]
fn event_entries() {
    let ts = timestamp_since_epoch(1_700_000_000, 42);
    assert_eq!(ts, Timestamp { seconds: 1_700_000_000, nanos: 42 });
    let name = "my-service".to_string();
    assert_eq!(event_entry(&name, String::new(), EventLevel::Error, ts), None);
    let e = event_entry(&name, "Log test 3".to_string(), EventLevel::Warn, ts).unwrap();
    assert_eq!(e.level, 2);
    assert_eq!(e.service_name, "my-service");
    assert_eq!(e.message, "Log test 3");
    assert_eq!(e.timestamp, Some(ts));
    assert_eq!(e.metadata, None);
}

#[test]
fn stream_session_reconnects_after_a_call_ends() {
    let (mut s, a) = StreamSession::start();
    assert_eq!(a, StreamAction::OpenCall { capacity: CALL_BUFFER_CAPACITY });
    assert_eq!(CALL_BUFFER_CAPACITY, 128);
    assert_eq!(s.step(StreamEvent::Opened), StreamAction::Receive);
    assert_eq!(s.step(StreamEvent::Received(entry("a"))), StreamAction::Forward(entry("a")));
    assert_eq!(s.step(StreamEvent::Forwarded(true)), StreamAction::Receive);
    assert_eq!(s.step(StreamEvent::Received(entry("b"))), StreamAction::Forward(entry("b")));
    assert_eq!(s.step(StreamEvent::Forwarded(false)), StreamAction::AwaitCall);
    assert_eq!(s.phase(), StreamPhase::Finishing);
    assert_eq!(s.step(StreamEvent::CallFinished), StreamAction::Pause { seconds: 5 });
    assert_eq!(RECONNECT_PAUSE_SECONDS, 5);
    assert_eq!(
        s.step(StreamEvent::PauseElapsed),
        StreamAction::OpenCall { capacity: CALL_BUFFER_CAPACITY }
    );
    assert_eq!(s.step(StreamEvent::Opened), StreamAction::Receive);
    assert_eq!(s.step(StreamEvent::SourceClosed), StreamAction::AwaitCall);
}

#[test]
fn client_endpoint_parses_uris() {
    assert!(client_endpoint("http://[::1]:50051".to_string()).is_ok());
    let e = client_endpoint("http://localhost:8080".to_string()).unwrap();
    assert_eq!(e.uri().host(), Some("localhost"));
    assert_eq!(e.uri().port_u16(), Some(8080));
    assert_eq!(e.uri().scheme_str(), Some("http"));
    assert!(client_endpoint("not a uri".to_string()).is_err());
    assert!(client_endpoint(String::new()).is_err());
}
