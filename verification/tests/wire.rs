use zenoh_grpc::native::{
    map_congestion_control, map_consolidation, map_locality, map_priority, map_query_target,
    map_reliability, opt_attachment, sample_kind, CongestionControl, Consolidation, Locality,
    Priority, QueryTarget, Reliability, SampleKind,
};
use zenoh_grpc::wire;

#[test]
fn codes_round_trip() {
    for c in 0..3 {
        assert_eq!(wire::SampleKind::from_code(c).unwrap().code(), c);
        assert_eq!(wire::CongestionControl::from_code(c).unwrap().code(), c);
        assert_eq!(wire::Reliability::from_code(c).unwrap().code(), c);
    }
    for c in 0..8 {
        assert_eq!(wire::Priority::from_code(c).unwrap().code(), c);
    }
    for c in 0..4 {
        assert_eq!(wire::Locality::from_code(c).unwrap().code(), c);
        assert_eq!(wire::QueryTarget::from_code(c).unwrap().code(), c);
    }
    for c in 0..5 {
        assert_eq!(wire::ConsolidationMode::from_code(c).unwrap().code(), c);
    }
    assert_eq!(wire::Priority::from_code(8), None);
    assert_eq!(wire::Locality::from_code(-1), None);
    assert_eq!(wire::ConsolidationMode::from_code(5), None);
}

#[test]
fn protocol_order_of_codes() {
    assert_eq!(wire::SampleKind::Put.code(), 1);
    assert_eq!(wire::SampleKind::Delete.code(), 2);
    assert_eq!(wire::Priority::RealTime.code(), 1);
    assert_eq!(wire::Priority::Data.code(), 5);
    assert_eq!(wire::Priority::Background.code(), 7);
    assert_eq!(wire::Locality::SessionLocal.code(), 2);
    assert_eq!(wire::QueryTarget::AllComplete.code(), 3);
    assert_eq!(wire::ConsolidationMode::NoConsolidation.code(), 2);
    assert_eq!(wire::ConsolidationMode::Latest.code(), 4);
}

#[test]
fn unspecified_and_unknown_codes_fall_back() {
    for c in [0, -3, 99] {
        assert_eq!(map_locality(c), Locality::Any);
        assert_eq!(map_congestion_control(c), CongestionControl::Block);
        assert_eq!(map_priority(c), Priority::Data);
        assert_eq!(map_reliability(c), Reliability::BestEffort);
        assert_eq!(map_query_target(c), QueryTarget::BestMatching);
        assert_eq!(map_consolidation(c), Consolidation::Auto);
    }
}

#[test]
fn known_codes_select_their_option() {
    assert_eq!(map_locality(1), Locality::Any);
    assert_eq!(map_locality(2), Locality::SessionLocal);
    assert_eq!(map_locality(3), Locality::Remote);
    assert_eq!(map_congestion_control(1), CongestionControl::Block);
    assert_eq!(map_congestion_control(2), CongestionControl::Drop);
    assert_eq!(map_priority(1), Priority::RealTime);
    assert_eq!(map_priority(2), Priority::InteractiveHigh);
    assert_eq!(map_priority(3), Priority::InteractiveLow);
    assert_eq!(map_priority(4), Priority::DataHigh);
    assert_eq!(map_priority(5), Priority::Data);
    assert_eq!(map_priority(6), Priority::DataLow);
    assert_eq!(map_priority(7), Priority::Background);
    assert_eq!(map_reliability(1), Reliability::BestEffort);
    assert_eq!(map_reliability(2), Reliability::Reliable);
    assert_eq!(map_query_target(1), QueryTarget::BestMatching);
    assert_eq!(map_query_target(2), QueryTarget::All);
    assert_eq!(map_query_target(3), QueryTarget::AllComplete);
    assert_eq!(map_consolidation(1), Consolidation::Auto);
    assert_eq!(map_consolidation(2), Consolidation::NoConsolidation);
    assert_eq!(map_consolidation(3), Consolidation::Monotonic);
    assert_eq!(map_consolidation(4), Consolidation::Latest);
}

#[test]
fn sample_kinds_and_attachments() {
    assert_eq!(sample_kind(SampleKind::Put), 1);
    assert_eq!(sample_kind(SampleKind::Delete), 2);
    assert_eq!(opt_attachment(Vec::new()), None);
    assert_eq!(opt_attachment(vec![0]), Some(vec![0]));
}
