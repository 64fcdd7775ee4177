use zenoh_grpc::args::{
    DeclarePublisherArgs, DeclareQuerierArgs, DeclareQueryableArgs, DeclareSubscriberArgs,
    PublisherDeleteArgs, PublisherPutArgs, QuerierGetArgs, QueryReplyArgs, QueryReplyDeleteArgs,
    QueryReplyErrArgs, SessionDeleteArgs, SessionGetArgs, SessionPutArgs,
};
use zenoh_grpc::native::{
    CongestionControl, Consolidation, Locality, Priority, QueryTarget, Reliability,
};
use zenoh_grpc::server::{
    delete_options, get_options, nonzero_timeout, publisher_delete_attachment,
    publisher_options, publisher_put_options, put_options, querier_get_options,
    querier_options, queryable_options, reply_delete_options, reply_err_options, reply_options,
    subscriber_options,
};

#[test]
fn put_with_defaults_and_with_options() {
    let o = put_options(SessionPutArgs { key_expr: "k".into(), payload: b"p".to_vec(), ..Default::default() });
    assert_eq!(o.key_expr, "k");
    assert_eq!(o.payload, b"p".to_vec());
    assert_eq!(o.congestion_control, CongestionControl::Block);
    assert_eq!(o.priority, Priority::Data);
    assert_eq!(o.allowed_destination, Locality::Any);
    assert!(!o.express);
    assert!(o.attachment.is_none());
    let o = put_options(SessionPutArgs {
        congestion_control: 2,
        priority: 1,
        express: true,
        allowed_destination: 3,
        attachment: vec![1, 2],
        encoding: "text/plain".into(),
        ..Default::default()
    });
    assert_eq!(o.congestion_control, CongestionControl::Drop);
    assert_eq!(o.priority, Priority::RealTime);
    assert!(o.express);
    assert_eq!(o.allowed_destination, Locality::Remote);
    assert_eq!(o.attachment, Some(vec![1, 2]));
    assert_eq!(o.encoding, "text/plain");
}

#[test]
fn delete_options_follow_the_request() {
    let o = delete_options(SessionDeleteArgs { key_expr: "k".into(), priority: 7, allowed_destination: 2, ..Default::default() });
    assert_eq!(o.key_expr, "k");
    assert_eq!(o.priority, Priority::Background);
    assert_eq!(o.allowed_destination, Locality::SessionLocal);
    assert!(o.attachment.is_none());
}

#[test]
fn get_passes_timeout_and_payload_only_when_given() {
    let o = get_options(SessionGetArgs { selector: "s".into(), encoding: "e".into(), ..Default::default() });
    assert_eq!(o.selector, "s");
    assert_eq!(o.target, QueryTarget::BestMatching);
    assert_eq!(o.consolidation, Consolidation::Auto);
    assert_eq!(o.timeout_ms, None);
    assert!(o.payload.is_none());
    let o = get_options(SessionGetArgs {
        selector: "s".into(),
        target: 2,
        consolidation: 3,
        timeout_ms: 3000,
        payload: b"q".to_vec(),
        encoding: "e".into(),
        attachment: vec![9],
        allowed_destination: 1,
    });
    assert_eq!(o.target, QueryTarget::All);
    assert_eq!(o.consolidation, Consolidation::Monotonic);
    assert_eq!(o.timeout_ms, Some(3000));
    let p = o.payload.unwrap();
    assert_eq!(p.payload, b"q".to_vec());
    assert_eq!(p.encoding, "e");
    assert_eq!(o.attachment, Some(vec![9]));
    assert_eq!(nonzero_timeout(0), None);
    assert_eq!(nonzero_timeout(1), Some(1));
}

#[test]
fn declarations() {
    let p = publisher_options(DeclarePublisherArgs { key_expr: "k".into(), reliability: 2, ..Default::default() });
    assert_eq!(p.key_expr, "k");
    assert_eq!(p.reliability, Reliability::Reliable);
    let s = subscriber_options(DeclareSubscriberArgs { key_expr: "k/**".into(), allowed_origin: 2 });
    assert_eq!(s.key_expr, "k/**");
    assert_eq!(s.allowed_origin, Locality::SessionLocal);
    let q = queryable_options(DeclareQueryableArgs { key_expr: "q".into(), complete: true, allowed_origin: 0 });
    assert!(q.complete);
    assert_eq!(q.allowed_origin, Locality::Any);
    let r = querier_options(DeclareQuerierArgs { key_expr: "r".into(), target: 3, consolidation: 4, timeout_ms: 0, allowed_destination: 0 });
    assert_eq!(r.target, QueryTarget::AllComplete);
    assert_eq!(r.consolidation, Consolidation::Latest);
    assert_eq!(r.timeout_ms, None);
}

#[test]
fn empty_encodings_and_attachments_are_not_passed_on() {
    let o = publisher_put_options(PublisherPutArgs { payload: b"hello".to_vec(), ..Default::default() });
    assert_eq!(o.payload, b"hello".to_vec());
    assert!(o.encoding.is_none());
    assert!(o.attachment.is_none());
    let o = publisher_put_options(PublisherPutArgs { encoding: "x".into(), attachment: vec![1], ..Default::default() });
    assert_eq!(o.encoding.as_deref(), Some("x"));
    assert_eq!(o.attachment, Some(vec![1]));
    assert!(publisher_delete_attachment(PublisherDeleteArgs::default()).is_none());
    let (k, o) = reply_options(QueryReplyArgs { key_expr: "demo/query/value".into(), payload: b"world".to_vec(), ..Default::default() });
    assert_eq!(k, "demo/query/value");
    assert_eq!(o.payload, b"world".to_vec());
    assert!(o.encoding.is_none());
    let (p, e) = reply_err_options(QueryReplyErrArgs { payload: b"bad".to_vec(), encoding: "text/plain".into(), ..Default::default() });
    assert_eq!(p, b"bad".to_vec());
    assert_eq!(e.as_deref(), Some("text/plain"));
    let (k, a) = reply_delete_options(QueryReplyDeleteArgs { key_expr: "k".into(), attachment: vec![3], ..Default::default() });
    assert_eq!(k, "k");
    assert_eq!(a, Some(vec![3]));
    let g = querier_get_options(QuerierGetArgs { parameters: "a=b".into(), ..Default::default() });
    assert_eq!(g.parameters, "a=b");
    assert!(g.payload.is_none() && g.attachment.is_none());
}
