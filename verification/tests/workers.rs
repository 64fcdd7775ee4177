use zenoh_grpc::client::{reconnect_action, ReconnectAction};
use zenoh_grpc::client::{
    publisher_declare_step, querier_declare_step, Backoff, CommandStep, CommandWorker,
    ConsumerMode, DeclareStep, GetStep, QueryBook, QueryIdentity, WorkerKind,
};
use zenoh_grpc::connect::ClientError;
use zenoh_grpc::messages::{
    closed_stream_error, queryable_try_recv, subscriber_try_recv, try_take, Query, QueryableEvent,
    QueryableEventEnvelope, StreamKind,
};
use zenoh_grpc::queue::DropOldestQueue;
use zenoh_grpc::status::{status, StatusCode};

fn unavailable_message(e: ClientError) -> String {
    match e {
        ClientError::Status(s) => {
            assert_eq!(s.code, StatusCode::Unavailable);
            s.message
        }
        other => panic!("unexpected {:?}", other),
    }
}

#[test]
fn querier_declare_failures() {
    assert_eq!(querier_declare_step(&Ok(())), GetStep::Stream);
    for code in [StatusCode::Unavailable, StatusCode::Unknown, StatusCode::Cancelled] {
        assert_eq!(querier_declare_step(&Err(status(code, "x"))), GetStep::EmptyAfterDisconnect);
    }
    for code in [
        StatusCode::NotFound,
        StatusCode::PermissionDenied,
        StatusCode::Internal,
        StatusCode::InvalidArgument,
    ] {
        assert_eq!(querier_declare_step(&Err(status(code, "x"))), GetStep::Fail);
    }
}

#[test]
fn publisher_declare_failures() {
    assert_eq!(publisher_declare_step(&Ok(())), DeclareStep::Proceed);
    for code in [StatusCode::Unavailable, StatusCode::Unknown, StatusCode::Cancelled] {
        assert_eq!(
            publisher_declare_step(&Err(status(code, "x"))),
            DeclareStep::RetryAfterReconnect
        );
    }
    for code in [StatusCode::NotFound, StatusCode::PermissionDenied, StatusCode::Internal] {
        assert_eq!(publisher_declare_step(&Err(status(code, "x"))), DeclareStep::DropWithWarning);
    }
}

#[test]
fn backoff_doubles_and_restarts_after_success() {
    let mut b = Backoff::new();
    let waits: Vec<u64> = (0..7).map(|_| b.after_failure()).collect();
    assert_eq!(waits, vec![200, 400, 800, 1600, 2000, 2000, 2000]);
    b.after_success();
    assert_eq!(b.after_failure(), 200);
    assert_eq!(b.after_failure(), 400);
}

#[test]
fn worker_acknowledges_each_command_once() {
    let mut q = DropOldestQueue::new(4);
    q.push("put a");
    q.push("put b");
    q.push("delete c");
    assert_eq!(q.pending_count(), 3);
    let mut w = CommandWorker::new(WorkerKind::Publisher);

    assert!(w.take_next(&mut q));
    assert_eq!(w.current_command(), Some(&"put a"));
    let lost = Err(status(StatusCode::Unavailable, "down"));
    assert_eq!(w.on_outcome(&mut q, &lost), CommandStep::RetryAfterReconnect);
    assert_eq!(w.current_command(), Some(&"put a"));
    assert_eq!(q.pending_count(), 3);
    let stale = Err(status(StatusCode::NotFound, "gone"));
    assert_eq!(w.on_outcome(&mut q, &stale), CommandStep::RetryAfterRedeclare);
    assert_eq!(q.pending_count(), 3);
    assert_eq!(w.on_outcome(&mut q, &Ok(())), CommandStep::Done);
    assert_eq!(w.current_command(), None);
    assert_eq!(q.pending_count(), 2);

    assert!(w.take_next(&mut q));
    assert_eq!(w.current_command(), Some(&"put b"));
    assert_eq!(w.on_declare_outcome(&mut q, &lost), DeclareStep::RetryAfterReconnect);
    assert_eq!(q.pending_count(), 2);
    let refused = Err(status(StatusCode::PermissionDenied, "no"));
    assert_eq!(w.on_declare_outcome(&mut q, &refused), DeclareStep::DropWithWarning);
    assert_eq!(w.current_command(), None);
    assert_eq!(q.pending_count(), 1);

    assert!(w.take_next(&mut q));
    assert_eq!(w.current_command(), Some(&"delete c"));
    w.drop_current(&mut q);
    assert_eq!(q.pending_count(), 0);
    assert!(q.is_settled());
    assert!(!w.take_next(&mut q));
}

#[test]
fn session_worker_drops_failed_commands() {
    let mut q = DropOldestQueue::new(2);
    q.push(1u8);
    let mut w = CommandWorker::new(WorkerKind::Session);
    assert!(w.take_next(&mut q));
    let stale = Err(status(StatusCode::NotFound, "gone"));
    assert_eq!(w.on_outcome(&mut q, &stale), CommandStep::DropWithWarning);
    assert!(q.is_settled());
}

#[test]
fn closed_streams_answer_unavailable() {
    assert_eq!(
        unavailable_message(closed_stream_error(StreamKind::SubscriberEvents)),
        "subscriber event queue closed"
    );
    assert_eq!(unavailable_message(closed_stream_error(StreamKind::Queries)), "query stream closed");
    assert_eq!(unavailable_message(closed_stream_error(StreamKind::Replies)), "reply stream closed");
}

#[test]
fn reply_stream_try_recv() {
    let mut q = DropOldestQueue::new(4);
    q.push("r1");
    q.push("r2");
    assert!(matches!(try_take(&mut q, StreamKind::Replies), Ok(Some("r1"))));
    assert!(matches!(try_take(&mut q, StreamKind::Replies), Ok(Some("r2"))));
    assert!(matches!(try_take(&mut q, StreamKind::Replies), Ok(None)));
    q.push("r3");
    q.remove_sender();
    assert!(matches!(try_take(&mut q, StreamKind::Replies), Ok(Some("r3"))));
    let e = try_take(&mut q, StreamKind::Replies).unwrap_err();
    assert_eq!(unavailable_message(e), "reply stream closed");
}

#[test]
fn subscriber_try_recv_by_mode() {
    let mut q = DropOldestQueue::new(2);
    q.push(10u32);
    match subscriber_try_recv(ConsumerMode::Callback, &mut q) {
        Err(ClientError::CallbackDriven { kind }) => assert_eq!(kind, "subscriber"),
        other => panic!("unexpected {:?}", other),
    }
    assert_eq!(q.len(), 1);
    assert!(matches!(subscriber_try_recv(ConsumerMode::Pull, &mut q), Ok(Some(10))));
    assert!(matches!(subscriber_try_recv(ConsumerMode::Pull, &mut q), Ok(None)));
    q.remove_sender();
    let e = subscriber_try_recv(ConsumerMode::Pull, &mut q).unwrap_err();
    assert_eq!(unavailable_message(e), "subscriber event queue closed");
}

#[test]
fn queryable_try_recv_by_mode() {
    let query = Query {
        query_id: 3,
        selector: "demo/**".into(),
        key_expr: "demo/**".into(),
        parameters: String::new(),
        payload: b"p".to_vec(),
        encoding: String::new(),
        attachment: Vec::new(),
    };
    let mut q = DropOldestQueue::new(4);
    q.push(QueryableEventEnvelope { remote_handle: 9, event: QueryableEvent { query: Some(query) } });
    q.push(QueryableEventEnvelope { remote_handle: 9, event: QueryableEvent { query: None } });
    let mut book = QueryBook::new();

    match queryable_try_recv(ConsumerMode::Callback, &mut q, &mut book) {
        Err(ClientError::CallbackDriven { kind }) => assert_eq!(kind, "queryable"),
        other => panic!("unexpected {:?}", other),
    }
    assert_eq!(q.len(), 2);

    match queryable_try_recv(ConsumerMode::Pull, &mut q, &mut book) {
        Ok(Some((identity, got))) => {
            assert_eq!(identity, QueryIdentity { remote_handle: 9, query_id: 3 });
            assert_eq!(got.payload, b"p".to_vec());
        }
        other => panic!("unexpected {:?}", other),
    }
    assert_eq!(book.identity_of(3), Some(QueryIdentity { remote_handle: 9, query_id: 3 }));

    let e = queryable_try_recv(ConsumerMode::Pull, &mut q, &mut book).unwrap_err();
    assert_eq!(unavailable_message(e), "queryable event missing query");
    assert!(matches!(queryable_try_recv(ConsumerMode::Pull, &mut q, &mut book), Ok(None)));
    q.remove_sender();
    let e = queryable_try_recv(ConsumerMode::Pull, &mut q, &mut book).unwrap_err();
    assert_eq!(unavailable_message(e), "query stream closed");
}

#[test]
fn reconnect_attempts_only_while_open_and_disconnected() {
    assert_eq!(reconnect_action(true, false), ReconnectAction::Stop);
    assert_eq!(reconnect_action(true, true), ReconnectAction::Stop);
    assert_eq!(reconnect_action(false, true), ReconnectAction::WaitForChange);
    assert_eq!(reconnect_action(false, false), ReconnectAction::Attempt);
}
