use zenoh_grpc::args::{QueryReplyArgs, QueryReplyDeleteArgs, QueryReplyErrArgs};
use zenoh_grpc::client::{
    command_step, consumer_mode, ensure_pull_mode, next_reconnect_delay_ms, undeclare_outcome,
    CommandStep, ConnectionState, ConsumerMode, FinishLatch, QueryBook, QueryIdentity,
    QueryableCommand, RemoteBinding, WarningLatch, WorkerKind, RECONNECT_DELAY_INITIAL_MS,
    RECONNECT_DELAY_MAX_MS,
};
use zenoh_grpc::client::{
    classify_failure, event_step, get_step, EventPhase, EventStep, FailureClass, GetSource, GetStep,
};
use zenoh_grpc::connect::ClientError;
use zenoh_grpc::status::{status, StatusCode};

#[test]
fn reconnect_delay_doubles_up_to_the_maximum() {
    let mut d = RECONNECT_DELAY_INITIAL_MS;
    let mut seen = vec![d];
    for _ in 0..6 {
        d = next_reconnect_delay_ms(d);
        seen.push(d);
    }
    assert_eq!(seen, vec![200, 400, 800, 1600, 2000, 2000, 2000]);
    assert_eq!(next_reconnect_delay_ms(u64::MAX), RECONNECT_DELAY_MAX_MS);
    assert_eq!(next_reconnect_delay_ms(0), 0);
    assert_eq!(next_reconnect_delay_ms(1000), 2000);
    assert_eq!(next_reconnect_delay_ms(1001), 2000);
}

#[test]
fn failure_on_an_old_connection_keeps_the_new_one() {
    let mut c = ConnectionState::new();
    assert!(c.current().is_none());
    let g1 = c.set_connected("first");
    assert_eq!(g1, 1);
    let g2 = c.set_connected("second");
    assert_eq!(g2, 2);
    assert!(!c.mark_disconnected(g1));
    assert_eq!(c.current(), Some((&"second", 2)));
    assert!(c.mark_disconnected(g2));
    assert!(c.current().is_none());
    assert!(!c.mark_disconnected(g2));
}

#[test]
fn disconnect_warning_once_per_outage() {
    let mut l = WarningLatch::new();
    assert!(!l.reconnected());
    assert!(l.should_warn());
    assert!(!l.should_warn());
    assert!(l.reconnected());
    assert!(!l.reconnected());
    assert!(l.should_warn());
}

#[test]
fn binding_forgets_only_its_own_handle() {
    let mut b = RemoteBinding::new();
    assert_eq!(b.cached(), None);
    b.bind(4, 1);
    b.invalidate(5);
    assert_eq!(b.cached(), Some(4));
    b.invalidate(4);
    assert_eq!(b.cached(), None);
    b.bind(6, 2);
    assert_eq!(b.take(), Some(6));
    assert_eq!(b.take(), None);
}

#[test]
fn callback_mode_refuses_receives() {
    assert_eq!(consumer_mode(true), ConsumerMode::Callback);
    assert_eq!(consumer_mode(false), ConsumerMode::Pull);
    assert!(ensure_pull_mode(ConsumerMode::Pull, "subscriber").is_ok());
    match ensure_pull_mode(ConsumerMode::Callback, "queryable") {
        Err(ClientError::CallbackDriven { kind }) => assert_eq!(kind, "queryable"),
        other => panic!("unexpected {:?}", other),
    }
}

#[test]
fn replies_need_an_active_query() {
    let mut book = QueryBook::new();
    let identity = QueryIdentity { remote_handle: 3, query_id: 11 };
    match book.reply_command(QueryReplyArgs { query_id: 11, ..Default::default() }) {
        Err(ClientError::Status(s)) => {
            assert_eq!(s.code, StatusCode::NotFound);
            assert_eq!(s.message, "query not found");
        }
        other => panic!("unexpected {:?}", other),
    }
    book.remember(identity);
    match book.reply_command(QueryReplyArgs { query_id: 11, payload: b"x".to_vec(), ..Default::default() }) {
        Ok(QueryableCommand::Reply { identity: i, args }) => {
            assert_eq!(i, identity);
            assert_eq!(args.payload, b"x".to_vec());
        }
        other => panic!("unexpected {:?}", other),
    }
    assert_eq!(book.reply_err_command(QueryReplyErrArgs { query_id: 11, ..Default::default() }).unwrap().identity(), identity);
    assert_eq!(book.reply_delete_command(QueryReplyDeleteArgs { query_id: 11, ..Default::default() }).unwrap().identity(), identity);
    book.forget(11);
    assert!(book.identity_of(11).is_none());
    assert!(book.reply_err_command(QueryReplyErrArgs { query_id: 11, ..Default::default() }).is_err());
}

#[test]
fn stale_queries_are_remembered_once() {
    let mut book = QueryBook::new();
    let identity = QueryIdentity { remote_handle: 1, query_id: 2 };
    book.remember(identity);
    assert!(!book.is_stale(identity));
    assert!(book.mark_stale(identity));
    assert!(book.is_stale(identity));
    assert!(book.identity_of(2).is_none());
    assert!(!book.mark_stale(identity));
    assert!(!book.is_stale(QueryIdentity { remote_handle: 2, query_id: 2 }));
}

#[test]
fn a_query_finishes_once() {
    let mut l = FinishLatch::new();
    assert!(l.mark_finished());
    assert!(!l.mark_finished());
    let identity = QueryIdentity { remote_handle: 9, query_id: 8 };
    assert_eq!(QueryableCommand::Finish { identity }.identity(), identity);
}

#[test]
fn what_workers_do_with_each_outcome() {
    let ok = Ok(());
    let lost = Err(status(StatusCode::Unavailable, "gone"));
    let unknown = Err(status(StatusCode::Unknown, "?"));
    let cancelled = Err(status(StatusCode::Cancelled, "c"));
    let stale = Err(status(StatusCode::NotFound, "publisher handle not found"));
    let denied = Err(status(StatusCode::PermissionDenied, "no"));
    let other = Err(status(StatusCode::Internal, "boom"));
    for kind in [WorkerKind::Session, WorkerKind::Publisher, WorkerKind::Queryable] {
        assert_eq!(command_step(kind, &ok), CommandStep::Done);
        assert_eq!(command_step(kind, &lost), CommandStep::RetryAfterReconnect);
        assert_eq!(command_step(kind, &unknown), CommandStep::RetryAfterReconnect);
        assert_eq!(command_step(kind, &cancelled), CommandStep::RetryAfterReconnect);
        assert_eq!(command_step(kind, &other), CommandStep::DropWithWarning);
    }
    assert_eq!(command_step(WorkerKind::Session, &stale), CommandStep::DropWithWarning);
    assert_eq!(command_step(WorkerKind::Publisher, &stale), CommandStep::RetryAfterRedeclare);
    assert_eq!(command_step(WorkerKind::Publisher, &denied), CommandStep::RetryAfterRedeclare);
    assert_eq!(command_step(WorkerKind::Queryable, &stale), CommandStep::DropStaleQuery);
}

#[test]
fn undeclare_tolerates_lost_connections_and_stale_handles() {
    let (mark, r) = undeclare_outcome(Ok(()));
    assert!(!mark && r.is_ok());
    let (mark, r) = undeclare_outcome(Err(status(StatusCode::Unavailable, "x")));
    assert!(mark && r.is_ok());
    let (mark, r) = undeclare_outcome(Err(status(StatusCode::NotFound, "x")));
    assert!(!mark && r.is_ok());
    let (mark, r) = undeclare_outcome(Err(status(StatusCode::Internal, "bad")));
    assert!(!mark);
    match r {
        Err(ClientError::Status(s)) => {
            assert_eq!(s.code, StatusCode::Internal);
            assert_eq!(s.message, "bad");
        }
        other => panic!("unexpected {:?}", other),
    }
}

#[test]
fn event_loop_steps() {
    let lost = Err(status(StatusCode::Unavailable, ""));
    let stale = Err(status(StatusCode::PermissionDenied, ""));
    let other = Err(status(StatusCode::Internal, ""));
    assert_eq!(event_step(EventPhase::Declare, &Ok(true)), EventStep::Proceed);
    assert_eq!(event_step(EventPhase::Declare, &lost), EventStep::RetryAfterReconnect);
    assert_eq!(event_step(EventPhase::Declare, &stale), EventStep::RetryLater);
    assert_eq!(event_step(EventPhase::Declare, &other), EventStep::RetryLater);
    assert_eq!(event_step(EventPhase::Open, &Ok(true)), EventStep::Proceed);
    assert_eq!(event_step(EventPhase::Open, &lost), EventStep::RetryAfterReconnect);
    assert_eq!(event_step(EventPhase::Open, &stale), EventStep::RetryAfterRedeclare);
    assert_eq!(event_step(EventPhase::Open, &other), EventStep::RetryLater);
    assert_eq!(event_step(EventPhase::Read, &Ok(true)), EventStep::Proceed);
    assert_eq!(event_step(EventPhase::Read, &Ok(false)), EventStep::EndOfStream);
    assert_eq!(event_step(EventPhase::Read, &lost), EventStep::RetryAfterReconnect);
    assert_eq!(event_step(EventPhase::Read, &stale), EventStep::RetryAfterRedeclare);
    assert_eq!(event_step(EventPhase::Read, &other), EventStep::Restart);
}

#[test]
fn get_steps() {
    let lost = Err(status(StatusCode::Cancelled, ""));
    let stale = Err(status(StatusCode::NotFound, ""));
    let other = Err(status(StatusCode::InvalidArgument, "bad selector"));
    assert_eq!(get_step(GetSource::Session, &Ok(())), GetStep::Stream);
    assert_eq!(get_step(GetSource::Session, &lost), GetStep::EmptyAfterDisconnect);
    assert_eq!(get_step(GetSource::Session, &stale), GetStep::Fail);
    assert_eq!(get_step(GetSource::Session, &other), GetStep::Fail);
    assert_eq!(get_step(GetSource::Querier, &lost), GetStep::EmptyAfterDisconnect);
    assert_eq!(get_step(GetSource::Querier, &stale), GetStep::EmptyAfterRedeclare);
    assert_eq!(get_step(GetSource::Querier, &other), GetStep::Fail);
    assert_eq!(classify_failure(&status(StatusCode::Unknown, "")), FailureClass::Disconnected);
    assert_eq!(classify_failure(&status(StatusCode::PermissionDenied, "")), FailureClass::Stale);
    assert_eq!(classify_failure(&status(StatusCode::Aborted, "")), FailureClass::Other);
}

#[test]
fn cleanup_reports_all_but_lost_connections() {
    let (mark, r) = zenoh_grpc::client::cleanup_outcome(Ok(()));
    assert!(!mark && r.is_ok());
    let (mark, r) = zenoh_grpc::client::cleanup_outcome(Err(status(StatusCode::Unavailable, "")));
    assert!(mark && r.is_ok());
    let (mark, r) = zenoh_grpc::client::cleanup_outcome(Err(status(StatusCode::NotFound, "gone")));
    assert!(!mark);
    match r {
        Err(ClientError::Status(s)) => assert_eq!(s.code, StatusCode::NotFound),
        other => panic!("unexpected {:?}", other),
    }
}
