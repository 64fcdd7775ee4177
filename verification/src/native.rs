//! The options that the server hands to Zenoh, and how the wire codes of a
//! request select them. An unspecified or unknown code selects the same
//! option as the protocol's default variant does.

use vstd::prelude::*;

use crate::wire;

verus! {

/// Where Zenoh lets a message come from or go to.
#[derive(Debug, Clone, Copy, PartialEq, Eq, Structural)]
pub enum Locality {
    SessionLocal,
    Remote,
    Any,
}

/// What Zenoh does with a message when the network is congested.
#[derive(Debug, Clone, Copy, PartialEq, Eq, Structural)]
pub enum CongestionControl {
    Drop,
    Block,
}

/// Zenoh's message priorities.
#[derive(Debug, Clone, Copy, PartialEq, Eq, Structural)]
pub enum Priority {
    RealTime,
    InteractiveHigh,
    InteractiveLow,
    DataHigh,
    Data,
    DataLow,
    Background,
}

/// Zenoh's publisher reliability.
#[derive(Debug, Clone, Copy, PartialEq, Eq, Structural)]
pub enum Reliability {
    BestEffort,
    Reliable,
}

/// Which queryables a Zenoh query reaches.
#[derive(Debug, Clone, Copy, PartialEq, Eq, Structural)]
pub enum QueryTarget {
    BestMatching,
    All,
    AllComplete,
}

/// Zenoh's reply consolidation; `Auto` lets Zenoh choose.
#[derive(Debug, Clone, Copy, PartialEq, Eq, Structural)]
pub enum Consolidation {
    Auto,
    /// No consolidation: Zenoh calls it `None`.
    NoConsolidation,
    Monotonic,
    Latest,
}

/// Kind of a Zenoh sample.
#[derive(Debug, Clone, Copy, PartialEq, Eq, Structural)]
pub enum SampleKind {
    Put,
    Delete,
}

pub open spec fn spec_map_locality(code: i32) -> Locality {
    match wire::Locality::decode(code) {
        wire::Locality::SessionLocal => Locality::SessionLocal,
        wire::Locality::Remote => Locality::Remote,
        _ => Locality::Any,
    }
}

pub open spec fn spec_map_congestion_control(code: i32) -> CongestionControl {
    match wire::CongestionControl::decode(code) {
        wire::CongestionControl::Drop => CongestionControl::Drop,
        _ => CongestionControl::Block,
    }
}

pub open spec fn spec_map_priority(code: i32) -> Priority {
    match wire::Priority::decode(code) {
        wire::Priority::RealTime => Priority::RealTime,
        wire::Priority::InteractiveHigh => Priority::InteractiveHigh,
        wire::Priority::InteractiveLow => Priority::InteractiveLow,
        wire::Priority::DataHigh => Priority::DataHigh,
        wire::Priority::DataLow => Priority::DataLow,
        wire::Priority::Background => Priority::Background,
        _ => Priority::Data,
    }
}

pub open spec fn spec_map_reliability(code: i32) -> Reliability {
    match wire::Reliability::decode(code) {
        wire::Reliability::Reliable => Reliability::Reliable,
        _ => Reliability::BestEffort,
    }
}

pub open spec fn spec_map_query_target(code: i32) -> QueryTarget {
    match wire::QueryTarget::decode(code) {
        wire::QueryTarget::All => QueryTarget::All,
        wire::QueryTarget::AllComplete => QueryTarget::AllComplete,
        _ => QueryTarget::BestMatching,
    }
}

pub open spec fn spec_map_consolidation(code: i32) -> Consolidation {
    match wire::ConsolidationMode::decode(code) {
        wire::ConsolidationMode::NoConsolidation => Consolidation::NoConsolidation,
        wire::ConsolidationMode::Monotonic => Consolidation::Monotonic,
        wire::ConsolidationMode::Latest => Consolidation::Latest,
        _ => Consolidation::Auto,
    }
}

/// The locality that a request's `allowed_origin` or `allowed_destination`
/// code selects.
pub fn map_locality(code: i32) -> (r: Locality)
    ensures
        r == spec_map_locality(code),
{
    match wire::Locality::from_code(code) {
        Some(wire::Locality::SessionLocal) => Locality::SessionLocal,
        Some(wire::Locality::Remote) => Locality::Remote,
        _ => Locality::Any,
    }
}

pub fn map_congestion_control(code: i32) -> (r: CongestionControl)
    ensures
        r == spec_map_congestion_control(code),
{
    match wire::CongestionControl::from_code(code) {
        Some(wire::CongestionControl::Drop) => CongestionControl::Drop,
        _ => CongestionControl::Block,
    }
}

pub fn map_priority(code: i32) -> (r: Priority)
    ensures
        r == spec_map_priority(code),
{
    match wire::Priority::from_code(code) {
        Some(wire::Priority::RealTime) => Priority::RealTime,
        Some(wire::Priority::InteractiveHigh) => Priority::InteractiveHigh,
        Some(wire::Priority::InteractiveLow) => Priority::InteractiveLow,
        Some(wire::Priority::DataHigh) => Priority::DataHigh,
        Some(wire::Priority::DataLow) => Priority::DataLow,
        Some(wire::Priority::Background) => Priority::Background,
        _ => Priority::Data,
    }
}

pub fn map_reliability(code: i32) -> (r: Reliability)
    ensures
        r == spec_map_reliability(code),
{
    match wire::Reliability::from_code(code) {
        Some(wire::Reliability::Reliable) => Reliability::Reliable,
        _ => Reliability::BestEffort,
    }
}

pub fn map_query_target(code: i32) -> (r: QueryTarget)
    ensures
        r == spec_map_query_target(code),
{
    match wire::QueryTarget::from_code(code) {
        Some(wire::QueryTarget::All) => QueryTarget::All,
        Some(wire::QueryTarget::AllComplete) => QueryTarget::AllComplete,
        _ => QueryTarget::BestMatching,
    }
}

pub fn map_consolidation(code: i32) -> (r: Consolidation)
    ensures
        r == spec_map_consolidation(code),
{
    match wire::ConsolidationMode::from_code(code) {
        Some(wire::ConsolidationMode::NoConsolidation) => Consolidation::NoConsolidation,
        Some(wire::ConsolidationMode::Monotonic) => Consolidation::Monotonic,
        Some(wire::ConsolidationMode::Latest) => Consolidation::Latest,
        _ => Consolidation::Auto,
    }
}

/// The wire code of a sample's kind: deletes are `Delete`, all else `Put`.
pub fn sample_kind(kind: SampleKind) -> (c: i32)
    ensures
        c == (match kind {
            SampleKind::Delete => wire::SampleKind::Delete,
            SampleKind::Put => wire::SampleKind::Put,
        }).spec_code(),
{
    match kind {
        SampleKind::Delete => wire::SampleKind::Delete.code(),
        SampleKind::Put => wire::SampleKind::Put.code(),
    }
}

/// An attachment is sent only when it holds bytes.
pub fn opt_attachment(bytes: Vec<u8>) -> (r: Option<Vec<u8>>)
    ensures
        bytes@.len() == 0 ==> r is None,
        bytes@.len() > 0 ==> (r matches Some(b) && b@ == bytes@),
{
    if bytes.len() == 0 {
        None
    } else {
        Some(bytes)
    }
}

/// An unspecified option (code 0) selects the same Zenoh option as any
/// code outside the protocol's range, and the same as the protocol's default
/// variant where the protocol has one.
pub proof fn lemma_unspecified_selects_default(unknown: i32)
    requires
        unknown < 0 || unknown > 7,
    ensures
        spec_map_locality(0) == spec_map_locality(unknown),
        spec_map_locality(0) == spec_map_locality(wire::Locality::Any.spec_code()),
        spec_map_congestion_control(0) == spec_map_congestion_control(unknown),
        spec_map_congestion_control(0) == spec_map_congestion_control(
            wire::CongestionControl::Block.spec_code(),
        ),
        spec_map_priority(0) == spec_map_priority(unknown),
        spec_map_priority(0) == spec_map_priority(wire::Priority::Data.spec_code()),
        spec_map_reliability(0) == spec_map_reliability(unknown),
        spec_map_reliability(0) == spec_map_reliability(wire::Reliability::BestEffort.spec_code()),
        spec_map_query_target(0) == spec_map_query_target(unknown),
        spec_map_query_target(0) == spec_map_query_target(
            wire::QueryTarget::BestMatching.spec_code(),
        ),
        spec_map_consolidation(0) == spec_map_consolidation(unknown),
        spec_map_consolidation(0) == spec_map_consolidation(
            wire::ConsolidationMode::Auto.spec_code(),
        ),
{
}

/// Every named wire variant selects the Zenoh option of the same name; only
/// the unspecified variant falls back to the default (`Any`, `Block`,
/// `Data`, `BestEffort`, `BestMatching`, `Auto`).
pub proof fn lemma_named_variants_kept()
    ensures
        spec_map_locality(wire::Locality::SessionLocal.spec_code()) == Locality::SessionLocal,
        spec_map_locality(wire::Locality::Remote.spec_code()) == Locality::Remote,
        spec_map_locality(wire::Locality::Any.spec_code()) == Locality::Any,
        spec_map_locality(wire::Locality::Unspecified.spec_code()) == Locality::Any,
        spec_map_congestion_control(wire::CongestionControl::Drop.spec_code())
            == CongestionControl::Drop,
        spec_map_congestion_control(wire::CongestionControl::Block.spec_code())
            == CongestionControl::Block,
        spec_map_congestion_control(wire::CongestionControl::Unspecified.spec_code())
            == CongestionControl::Block,
        spec_map_priority(wire::Priority::RealTime.spec_code()) == Priority::RealTime,
        spec_map_priority(wire::Priority::InteractiveHigh.spec_code())
            == Priority::InteractiveHigh,
        spec_map_priority(wire::Priority::InteractiveLow.spec_code()) == Priority::InteractiveLow,
        spec_map_priority(wire::Priority::DataHigh.spec_code()) == Priority::DataHigh,
        spec_map_priority(wire::Priority::Data.spec_code()) == Priority::Data,
        spec_map_priority(wire::Priority::DataLow.spec_code()) == Priority::DataLow,
        spec_map_priority(wire::Priority::Background.spec_code()) == Priority::Background,
        spec_map_priority(wire::Priority::Unspecified.spec_code()) == Priority::Data,
        spec_map_reliability(wire::Reliability::Reliable.spec_code()) == Reliability::Reliable,
        spec_map_reliability(wire::Reliability::BestEffort.spec_code())
            == Reliability::BestEffort,
        spec_map_reliability(wire::Reliability::Unspecified.spec_code())
            == Reliability::BestEffort,
        spec_map_query_target(wire::QueryTarget::All.spec_code()) == QueryTarget::All,
        spec_map_query_target(wire::QueryTarget::AllComplete.spec_code())
            == QueryTarget::AllComplete,
        spec_map_query_target(wire::QueryTarget::BestMatching.spec_code())
            == QueryTarget::BestMatching,
        spec_map_query_target(wire::QueryTarget::Unspecified.spec_code())
            == QueryTarget::BestMatching,
        spec_map_consolidation(wire::ConsolidationMode::NoConsolidation.spec_code())
            == Consolidation::NoConsolidation,
        spec_map_consolidation(wire::ConsolidationMode::Monotonic.spec_code())
            == Consolidation::Monotonic,
        spec_map_consolidation(wire::ConsolidationMode::Latest.spec_code())
            == Consolidation::Latest,
        spec_map_consolidation(wire::ConsolidationMode::Auto.spec_code()) == Consolidation::Auto,
        spec_map_consolidation(wire::ConsolidationMode::Unspecified.spec_code())
            == Consolidation::Auto,
{
}

/// Deletes are sent with the delete code and puts with the put code, and
/// the two codes differ.
pub proof fn lemma_sample_kind_codes()
    ensures
        wire::SampleKind::Delete.spec_code() != wire::SampleKind::Put.spec_code(),
        wire::SampleKind::spec_from_code(wire::SampleKind::Delete.spec_code()) == Some(
            wire::SampleKind::Delete,
        ),
        wire::SampleKind::spec_from_code(wire::SampleKind::Put.spec_code()) == Some(
            wire::SampleKind::Put,
        ),
{
}

} // verus!
