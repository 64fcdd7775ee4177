use zenoh_grpc::args::QueryReplyArgs;
use zenoh_grpc::client::{
    CommandStep, CommandWorker, ConnectionState, DeclareStep, QueryBook, QueryIdentity,
    QueryableCommand, RemoteBinding, SessionIds, WorkerKind,
};
use zenoh_grpc::connect::{validate_connect_addr, ClientError, ConnectAddr};
use zenoh_grpc::messages::Query;
use zenoh_grpc::queue::DropOldestQueue;
use zenoh_grpc::registry::InflightTable;
use zenoh_grpc::server::{admit_query, ReceivedQuery};
use zenoh_grpc::status::{status, StatusCode};

#[test]
fn client_error_texts() {
    let e = ClientError::CallbackDriven { kind: "subscriber" };
    assert_eq!(e.to_string(), "subscriber is callback-driven");
    let e = ClientError::CallbackDriven { kind: "queryable" };
    assert_eq!(e.to_string(), "queryable is callback-driven");

    let e = ClientError::Status(status(StatusCode::Unavailable, "reply stream closed"));
    let expected = tonic::Status::new(tonic::Code::Unavailable, "reply stream closed").to_string();
    assert_eq!(e.to_string(), expected);
    assert!(e.to_string().contains("Unavailable"));
    assert!(e.to_string().contains("reply stream closed"));

    let e = ClientError::Status(status(StatusCode::NotFound, "query not found"));
    let expected = tonic::Status::new(tonic::Code::NotFound, "query not found").to_string();
    assert_eq!(e.to_string(), expected);

    let err = validate_connect_addr(&ConnectAddr::Tcp("bad host".into())).unwrap_err();
    assert_eq!(ClientError::Transport(err).to_string(), "invalid URI");
}

#[test]
fn status_code_numbers() {
    assert_eq!(StatusCode::Success.number(), 0);
    assert_eq!(StatusCode::Cancelled.number(), 1);
    assert_eq!(StatusCode::NotFound.number(), 5);
    assert_eq!(StatusCode::PermissionDenied.number(), 7);
    assert_eq!(StatusCode::Unavailable.number(), 14);
    assert_eq!(StatusCode::Unauthenticated.number(), 16);
}

#[test]
fn session_ids() {
    let mut ids = SessionIds::new();
    let id = ids.client_id_owned();
    assert_eq!(id.len(), 36);
    assert_eq!(id.as_bytes()[14], b'4');
    for (i, c) in id.chars().enumerate() {
        if [8, 13, 18, 23].contains(&i) {
            assert_eq!(c, '-');
        } else {
            assert!(c.is_ascii_hexdigit() && !c.is_ascii_uppercase());
        }
    }
    assert_ne!(SessionIds::new().client_id_owned(), id);
    assert_eq!(ids.alloc_local_handle(), 1);
    assert_eq!(ids.alloc_local_handle(), 2);
    assert_eq!(ids.alloc_local_handle(), 3);
    assert_eq!(ids.client_id_owned(), id);
}

#[test]
fn session_worker_drops_after_close_and_marks_lost_connections() {
    let mut q = DropOldestQueue::new(4);
    q.push("put");
    q.push("delete");
    let mut conn = ConnectionState::new();
    let g = conn.set_connected("channel");
    let mut w = CommandWorker::new(WorkerKind::Session);

    assert!(w.take_next(&mut q));
    assert!(w.before_attempt(&mut q, false));
    let lost = Err(status(StatusCode::Unavailable, "down"));
    assert_eq!(w.after_call(&mut q, &mut conn, g, &lost), CommandStep::RetryAfterReconnect);
    assert!(conn.current().is_none());
    assert_eq!(w.current_command(), Some(&"put"));
    let g2 = conn.set_connected("again");
    assert_eq!(w.after_call(&mut q, &mut conn, g2, &Ok(())), CommandStep::Done);
    assert_eq!(conn.current(), Some((&"again", 2)));
    assert_eq!(q.pending_count(), 1);

    assert!(w.take_next(&mut q));
    assert!(!w.before_attempt(&mut q, true));
    assert_eq!(w.current_command(), None);
    assert!(q.is_settled());
}

#[test]
fn publisher_worker_declares_binds_and_redeclares() {
    let mut q = DropOldestQueue::new(4);
    q.push("put a");
    q.push("put b");
    let mut conn = ConnectionState::new();
    let g = conn.set_connected(());
    let mut binding = RemoteBinding::new();
    let mut w = CommandWorker::new(WorkerKind::Publisher);

    assert!(w.take_next(&mut q));
    assert_eq!(binding.cached(), None);
    assert_eq!(
        w.publisher_after_declare(&mut q, &mut conn, &mut binding, g, &Ok(11)),
        DeclareStep::Proceed
    );
    assert_eq!(binding.cached(), Some(11));
    let stale = Err(status(StatusCode::NotFound, "no such publisher"));
    assert_eq!(
        w.publisher_after_call(&mut q, &mut conn, &mut binding, g, 11, &stale),
        CommandStep::RetryAfterRedeclare
    );
    assert_eq!(binding.cached(), None);
    assert_eq!(w.current_command(), Some(&"put a"));
    assert_eq!(
        w.publisher_after_declare(&mut q, &mut conn, &mut binding, g, &Ok(12)),
        DeclareStep::Proceed
    );
    assert_eq!(
        w.publisher_after_call(&mut q, &mut conn, &mut binding, g, 12, &Ok(())),
        CommandStep::Done
    );
    assert_eq!(binding.cached(), Some(12));

    assert!(w.take_next(&mut q));
    let mut unbound = RemoteBinding::new();
    let lost = Err(status(StatusCode::Cancelled, "gone"));
    assert_eq!(
        w.publisher_after_declare(&mut q, &mut conn, &mut unbound, g, &lost),
        DeclareStep::RetryAfterReconnect
    );
    assert!(conn.current().is_none());
    assert_eq!(unbound.cached(), None);
    let g2 = conn.set_connected(());
    let refused = Err(status(StatusCode::PermissionDenied, "no"));
    assert_eq!(
        w.publisher_after_declare(&mut q, &mut conn, &mut unbound, g2, &refused),
        DeclareStep::DropWithWarning
    );
    assert_eq!(w.current_command(), None);
    assert!(q.is_settled());
}

#[test]
fn queryable_worker_bookkeeping() {
    let a = QueryIdentity { remote_handle: 5, query_id: 1 };
    let b = QueryIdentity { remote_handle: 5, query_id: 2 };
    let mut book = QueryBook::new();
    book.remember(a);
    book.remember(b);
    let mut q = DropOldestQueue::new(8);
    q.push(QueryableCommand::Finish { identity: a });
    q.push(QueryableCommand::Finish { identity: b });
    q.push(QueryableCommand::Finish { identity: b });
    let mut conn = ConnectionState::new();
    let g = conn.set_connected(());
    let mut w = CommandWorker::new(WorkerKind::Queryable);

    assert!(w.take_next(&mut q));
    assert!(!w.skip_if_stale(&mut q, &book));
    assert_eq!(w.queryable_after_call(&mut q, &mut conn, &mut book, g, &Ok(())), CommandStep::Done);
    assert_eq!(book.identity_of(1), None);
    assert!(book.reply_command(QueryReplyArgs {
        query_id: 1,
        ..Default::default()
    })
    .is_err());

    assert!(w.take_next(&mut q));
    assert!(!w.skip_if_stale(&mut q, &book));
    let stale = Err(status(StatusCode::NotFound, "query gone"));
    assert_eq!(
        w.queryable_after_call(&mut q, &mut conn, &mut book, g, &stale),
        CommandStep::DropStaleQuery
    );
    assert!(book.is_stale(b));
    assert_eq!(book.identity_of(2), None);

    assert!(w.take_next(&mut q));
    assert!(w.skip_if_stale(&mut q, &book));
    assert_eq!(w.current_command().map(|c| c.identity()), None);
    assert!(q.is_settled());
}

#[test]
fn queries_are_admitted_with_fresh_ids() {
    let mut inflight = InflightTable::new();
    let fields = ReceivedQuery {
        selector: "demo/**?x=1".into(),
        key_expr: "demo/**".into(),
        parameters: "x=1".into(),
        payload: Some(b"hi".to_vec()),
        encoding: None,
        attachment: None,
    };
    let event = admit_query(&mut inflight, "client-a".to_string(), 9, "zenoh query 1", fields);
    let query: Query = event.query.unwrap();
    assert_eq!(query.query_id, 1);
    assert_eq!(query.selector, "demo/**?x=1");
    assert_eq!(query.key_expr, "demo/**");
    assert_eq!(query.parameters, "x=1");
    assert_eq!(query.payload, b"hi".to_vec());
    assert_eq!(query.encoding, "");
    assert!(query.attachment.is_empty());
    let stored = inflight.get(1).unwrap();
    assert_eq!(stored.owner, "client-a");
    assert_eq!(stored.handle, 9);
    assert_eq!(stored.query, "zenoh query 1");

    let fields = ReceivedQuery {
        selector: "k".into(),
        key_expr: "k".into(),
        parameters: String::new(),
        payload: None,
        encoding: Some("text/plain".into()),
        attachment: Some(vec![1, 2]),
    };
    let event = admit_query(&mut inflight, "client-a".to_string(), 9, "zenoh query 2", fields);
    let query = event.query.unwrap();
    assert_eq!(query.query_id, 2);
    assert!(query.payload.is_empty());
    assert_eq!(query.encoding, "text/plain");
    assert_eq!(query.attachment, vec![1, 2]);
}
