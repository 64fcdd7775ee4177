//! The enumerations of the gRPC protocol and their integer wire codes.
//!
//! A request carries each option as an `i32`; code 0 always means
//! "unspecified", and the other variants are numbered from 1 in the order
//! the protocol lists them.

use vstd::prelude::*;

verus! {

/// Kind of a sample: a put or a delete.
#[derive(Debug, Clone, Copy, PartialEq, Eq, Structural)]
pub enum SampleKind {
    Unspecified,
    Put,
    Delete,
}

impl SampleKind {
    /// The wire code of a variant.
    pub open spec fn spec_code(self) -> i32 {
        match self {
            SampleKind::Unspecified => 0,
            SampleKind::Put => 1,
            SampleKind::Delete => 2,
        }
    }

    /// The variant with wire code `c`, if any.
    pub open spec fn spec_from_code(c: i32) -> Option<SampleKind> {
        if c == 0 {
            Some(SampleKind::Unspecified)
        } else if c == 1 {
            Some(SampleKind::Put)
        } else if c == 2 {
            Some(SampleKind::Delete)
        } else {
            None
        }
    }

    /// The variant with wire code `c`, or `Unspecified` for an unknown code.
    pub open spec fn decode(c: i32) -> SampleKind {
        match Self::spec_from_code(c) {
            Some(v) => v,
            None => SampleKind::Unspecified,
        }
    }

    /// The wire code of this variant.
    pub fn code(&self) -> (c: i32)
        ensures
            c == self.spec_code(),
    {
        match self {
            SampleKind::Unspecified => 0,
            SampleKind::Put => 1,
            SampleKind::Delete => 2,
        }
    }

    /// The variant with wire code `c`; an unknown code is refused.
    pub fn from_code(c: i32) -> (r: Option<SampleKind>)
        ensures
            r == Self::spec_from_code(c),
    {
        if c == 0 {
            Some(SampleKind::Unspecified)
        } else if c == 1 {
            Some(SampleKind::Put)
        } else if c == 2 {
            Some(SampleKind::Delete)
        } else {
            None
        }
    }
}

/// Decoding the code of a variant gives the variant back, and every
/// known code is the code of the variant it decodes to.
pub proof fn lemma_sample_kind_code_round_trip(v: SampleKind, c: i32)
    ensures
        SampleKind::spec_from_code(v.spec_code()) == Some(v),
        SampleKind::spec_from_code(c) matches Some(w) ==> w.spec_code() == c,
        0 <= v.spec_code() < 3,
{
}

/// What a publisher does when the network is congested.
#[derive(Debug, Clone, Copy, PartialEq, Eq, Structural)]
pub enum CongestionControl {
    Unspecified,
    Block,
    Drop,
}

impl CongestionControl {
    /// The wire code of a variant.
    pub open spec fn spec_code(self) -> i32 {
        match self {
            CongestionControl::Unspecified => 0,
            CongestionControl::Block => 1,
            CongestionControl::Drop => 2,
        }
    }

    /// The variant with wire code `c`, if any.
    pub open spec fn spec_from_code(c: i32) -> Option<CongestionControl> {
        if c == 0 {
            Some(CongestionControl::Unspecified)
        } else if c == 1 {
            Some(CongestionControl::Block)
        } else if c == 2 {
            Some(CongestionControl::Drop)
        } else {
            None
        }
    }

    /// The variant with wire code `c`, or `Unspecified` for an unknown code.
    pub open spec fn decode(c: i32) -> CongestionControl {
        match Self::spec_from_code(c) {
            Some(v) => v,
            None => CongestionControl::Unspecified,
        }
    }

    /// The wire code of this variant.
    pub fn code(&self) -> (c: i32)
        ensures
            c == self.spec_code(),
    {
        match self {
            CongestionControl::Unspecified => 0,
            CongestionControl::Block => 1,
            CongestionControl::Drop => 2,
        }
    }

    /// The variant with wire code `c`; an unknown code is refused.
    pub fn from_code(c: i32) -> (r: Option<CongestionControl>)
        ensures
            r == Self::spec_from_code(c),
    {
        if c == 0 {
            Some(CongestionControl::Unspecified)
        } else if c == 1 {
            Some(CongestionControl::Block)
        } else if c == 2 {
            Some(CongestionControl::Drop)
        } else {
            None
        }
    }
}

/// Decoding the code of a variant gives the variant back, and every
/// known code is the code of the variant it decodes to.
pub proof fn lemma_congestion_control_code_round_trip(v: CongestionControl, c: i32)
    ensures
        CongestionControl::spec_from_code(v.spec_code()) == Some(v),
        CongestionControl::spec_from_code(c) matches Some(w) ==> w.spec_code() == c,
        0 <= v.spec_code() < 3,
{
}

/// Priority of a message.
#[derive(Debug, Clone, Copy, PartialEq, Eq, Structural)]
pub enum Priority {
    Unspecified,
    RealTime,
    InteractiveHigh,
    InteractiveLow,
    DataHigh,
    Data,
    DataLow,
    Background,
}

impl Priority {
    /// The wire code of a variant.
    pub open spec fn spec_code(self) -> i32 {
        match self {
            Priority::Unspecified => 0,
            Priority::RealTime => 1,
            Priority::InteractiveHigh => 2,
            Priority::InteractiveLow => 3,
            Priority::DataHigh => 4,
            Priority::Data => 5,
            Priority::DataLow => 6,
            Priority::Background => 7,
        }
    }

    /// The variant with wire code `c`, if any.
    pub open spec fn spec_from_code(c: i32) -> Option<Priority> {
        if c == 0 {
            Some(Priority::Unspecified)
        } else if c == 1 {
            Some(Priority::RealTime)
        } else if c == 2 {
            Some(Priority::InteractiveHigh)
        } else if c == 3 {
            Some(Priority::InteractiveLow)
        } else if c == 4 {
            Some(Priority::DataHigh)
        } else if c == 5 {
            Some(Priority::Data)
        } else if c == 6 {
            Some(Priority::DataLow)
        } else if c == 7 {
            Some(Priority::Background)
        } else {
            None
        }
    }

    /// The variant with wire code `c`, or `Unspecified` for an unknown code.
    pub open spec fn decode(c: i32) -> Priority {
        match Self::spec_from_code(c) {
            Some(v) => v,
            None => Priority::Unspecified,
        }
    }

    /// The wire code of this variant.
    pub fn code(&self) -> (c: i32)
        ensures
            c == self.spec_code(),
    {
        match self {
            Priority::Unspecified => 0,
            Priority::RealTime => 1,
            Priority::InteractiveHigh => 2,
            Priority::InteractiveLow => 3,
            Priority::DataHigh => 4,
            Priority::Data => 5,
            Priority::DataLow => 6,
            Priority::Background => 7,
        }
    }

    /// The variant with wire code `c`; an unknown code is refused.
    pub fn from_code(c: i32) -> (r: Option<Priority>)
        ensures
            r == Self::spec_from_code(c),
    {
        if c == 0 {
            Some(Priority::Unspecified)
        } else if c == 1 {
            Some(Priority::RealTime)
        } else if c == 2 {
            Some(Priority::InteractiveHigh)
        } else if c == 3 {
            Some(Priority::InteractiveLow)
        } else if c == 4 {
            Some(Priority::DataHigh)
        } else if c == 5 {
            Some(Priority::Data)
        } else if c == 6 {
            Some(Priority::DataLow)
        } else if c == 7 {
            Some(Priority::Background)
        } else {
            None
        }
    }
}

/// Decoding the code of a variant gives the variant back, and every
/// known code is the code of the variant it decodes to.
pub proof fn lemma_priority_code_round_trip(v: Priority, c: i32)
    ensures
        Priority::spec_from_code(v.spec_code()) == Some(v),
        Priority::spec_from_code(c) matches Some(w) ==> w.spec_code() == c,
        0 <= v.spec_code() < 8,
{
}

/// Reliability of a publisher's messages.
#[derive(Debug, Clone, Copy, PartialEq, Eq, Structural)]
pub enum Reliability {
    Unspecified,
    BestEffort,
    Reliable,
}

impl Reliability {
    /// The wire code of a variant.
    pub open spec fn spec_code(self) -> i32 {
        match self {
            Reliability::Unspecified => 0,
            Reliability::BestEffort => 1,
            Reliability::Reliable => 2,
        }
    }

    /// The variant with wire code `c`, if any.
    pub open spec fn spec_from_code(c: i32) -> Option<Reliability> {
        if c == 0 {
            Some(Reliability::Unspecified)
        } else if c == 1 {
            Some(Reliability::BestEffort)
        } else if c == 2 {
            Some(Reliability::Reliable)
        } else {
            None
        }
    }

    /// The variant with wire code `c`, or `Unspecified` for an unknown code.
    pub open spec fn decode(c: i32) -> Reliability {
        match Self::spec_from_code(c) {
            Some(v) => v,
            None => Reliability::Unspecified,
        }
    }

    /// The wire code of this variant.
    pub fn code(&self) -> (c: i32)
        ensures
            c == self.spec_code(),
    {
        match self {
            Reliability::Unspecified => 0,
            Reliability::BestEffort => 1,
            Reliability::Reliable => 2,
        }
    }

    /// The variant with wire code `c`; an unknown code is refused.
    pub fn from_code(c: i32) -> (r: Option<Reliability>)
        ensures
            r == Self::spec_from_code(c),
    {
        if c == 0 {
            Some(Reliability::Unspecified)
        } else if c == 1 {
            Some(Reliability::BestEffort)
        } else if c == 2 {
            Some(Reliability::Reliable)
        } else {
            None
        }
    }
}

/// Decoding the code of a variant gives the variant back, and every
/// known code is the code of the variant it decodes to.
pub proof fn lemma_reliability_code_round_trip(v: Reliability, c: i32)
    ensures
        Reliability::spec_from_code(v.spec_code()) == Some(v),
        Reliability::spec_from_code(c) matches Some(w) ==> w.spec_code() == c,
        0 <= v.spec_code() < 3,
{
}

/// Where a message may come from or go to.
#[derive(Debug, Clone, Copy, PartialEq, Eq, Structural)]
pub enum Locality {
    Unspecified,
    Any,
    SessionLocal,
    Remote,
}

impl Locality {
    /// The wire code of a variant.
    pub open spec fn spec_code(self) -> i32 {
        match self {
            Locality::Unspecified => 0,
            Locality::Any => 1,
            Locality::SessionLocal => 2,
            Locality::Remote => 3,
        }
    }

    /// The variant with wire code `c`, if any.
    pub open spec fn spec_from_code(c: i32) -> Option<Locality> {
        if c == 0 {
            Some(Locality::Unspecified)
        } else if c == 1 {
            Some(Locality::Any)
        } else if c == 2 {
            Some(Locality::SessionLocal)
        } else if c == 3 {
            Some(Locality::Remote)
        } else {
            None
        }
    }

    /// The variant with wire code `c`, or `Unspecified` for an unknown code.
    pub open spec fn decode(c: i32) -> Locality {
        match Self::spec_from_code(c) {
            Some(v) => v,
            None => Locality::Unspecified,
        }
    }

    /// The wire code of this variant.
    pub fn code(&self) -> (c: i32)
        ensures
            c == self.spec_code(),
    {
        match self {
            Locality::Unspecified => 0,
            Locality::Any => 1,
            Locality::SessionLocal => 2,
            Locality::Remote => 3,
        }
    }

    /// The variant with wire code `c`; an unknown code is refused.
    pub fn from_code(c: i32) -> (r: Option<Locality>)
        ensures
            r == Self::spec_from_code(c),
    {
        if c == 0 {
            Some(Locality::Unspecified)
        } else if c == 1 {
            Some(Locality::Any)
        } else if c == 2 {
            Some(Locality::SessionLocal)
        } else if c == 3 {
            Some(Locality::Remote)
        } else {
            None
        }
    }
}

/// Decoding the code of a variant gives the variant back, and every
/// known code is the code of the variant it decodes to.
pub proof fn lemma_locality_code_round_trip(v: Locality, c: i32)
    ensures
        Locality::spec_from_code(v.spec_code()) == Some(v),
        Locality::spec_from_code(c) matches Some(w) ==> w.spec_code() == c,
        0 <= v.spec_code() < 4,
{
}

/// Which queryables a query reaches.
#[derive(Debug, Clone, Copy, PartialEq, Eq, Structural)]
pub enum QueryTarget {
    Unspecified,
    BestMatching,
    All,
    AllComplete,
}

impl QueryTarget {
    /// The wire code of a variant.
    pub open spec fn spec_code(self) -> i32 {
        match self {
            QueryTarget::Unspecified => 0,
            QueryTarget::BestMatching => 1,
            QueryTarget::All => 2,
            QueryTarget::AllComplete => 3,
        }
    }

    /// The variant with wire code `c`, if any.
    pub open spec fn spec_from_code(c: i32) -> Option<QueryTarget> {
        if c == 0 {
            Some(QueryTarget::Unspecified)
        } else if c == 1 {
            Some(QueryTarget::BestMatching)
        } else if c == 2 {
            Some(QueryTarget::All)
        } else if c == 3 {
            Some(QueryTarget::AllComplete)
        } else {
            None
        }
    }

    /// The variant with wire code `c`, or `Unspecified` for an unknown code.
    pub open spec fn decode(c: i32) -> QueryTarget {
        match Self::spec_from_code(c) {
            Some(v) => v,
            None => QueryTarget::Unspecified,
        }
    }

    /// The wire code of this variant.
    pub fn code(&self) -> (c: i32)
        ensures
            c == self.spec_code(),
    {
        match self {
            QueryTarget::Unspecified => 0,
            QueryTarget::BestMatching => 1,
            QueryTarget::All => 2,
            QueryTarget::AllComplete => 3,
        }
    }

    /// The variant with wire code `c`; an unknown code is refused.
    pub fn from_code(c: i32) -> (r: Option<QueryTarget>)
        ensures
            r == Self::spec_from_code(c),
    {
        if c == 0 {
            Some(QueryTarget::Unspecified)
        } else if c == 1 {
            Some(QueryTarget::BestMatching)
        } else if c == 2 {
            Some(QueryTarget::All)
        } else if c == 3 {
            Some(QueryTarget::AllComplete)
        } else {
            None
        }
    }
}

/// Decoding the code of a variant gives the variant back, and every
/// known code is the code of the variant it decodes to.
pub proof fn lemma_query_target_code_round_trip(v: QueryTarget, c: i32)
    ensures
        QueryTarget::spec_from_code(v.spec_code()) == Some(v),
        QueryTarget::spec_from_code(c) matches Some(w) ==> w.spec_code() == c,
        0 <= v.spec_code() < 4,
{
}

/// How the replies to a query are consolidated.
#[derive(Debug, Clone, Copy, PartialEq, Eq, Structural)]
pub enum ConsolidationMode {
    Unspecified,
    Auto,
    /// No consolidation: the protocol calls it `NONE`.
    NoConsolidation,
    Monotonic,
    Latest,
}

impl ConsolidationMode {
    /// The wire code of a variant.
    pub open spec fn spec_code(self) -> i32 {
        match self {
            ConsolidationMode::Unspecified => 0,
            ConsolidationMode::Auto => 1,
            ConsolidationMode::NoConsolidation => 2,
            ConsolidationMode::Monotonic => 3,
            ConsolidationMode::Latest => 4,
        }
    }

    /// The variant with wire code `c`, if any.
    pub open spec fn spec_from_code(c: i32) -> Option<ConsolidationMode> {
        if c == 0 {
            Some(ConsolidationMode::Unspecified)
        } else if c == 1 {
            Some(ConsolidationMode::Auto)
        } else if c == 2 {
            Some(ConsolidationMode::NoConsolidation)
        } else if c == 3 {
            Some(ConsolidationMode::Monotonic)
        } else if c == 4 {
            Some(ConsolidationMode::Latest)
        } else {
            None
        }
    }

    /// The variant with wire code `c`, or `Unspecified` for an unknown code.
    pub open spec fn decode(c: i32) -> ConsolidationMode {
        match Self::spec_from_code(c) {
            Some(v) => v,
            None => ConsolidationMode::Unspecified,
        }
    }

    /// The wire code of this variant.
    pub fn code(&self) -> (c: i32)
        ensures
            c == self.spec_code(),
    {
        match self {
            ConsolidationMode::Unspecified => 0,
            ConsolidationMode::Auto => 1,
            ConsolidationMode::NoConsolidation => 2,
            ConsolidationMode::Monotonic => 3,
            ConsolidationMode::Latest => 4,
        }
    }

    /// The variant with wire code `c`; an unknown code is refused.
    pub fn from_code(c: i32) -> (r: Option<ConsolidationMode>)
        ensures
            r == Self::spec_from_code(c),
    {
        if c == 0 {
            Some(ConsolidationMode::Unspecified)
        } else if c == 1 {
            Some(ConsolidationMode::Auto)
        } else if c == 2 {
            Some(ConsolidationMode::NoConsolidation)
        } else if c == 3 {
            Some(ConsolidationMode::Monotonic)
        } else if c == 4 {
            Some(ConsolidationMode::Latest)
        } else {
            None
        }
    }
}

/// Decoding the code of a variant gives the variant back, and every
/// known code is the code of the variant it decodes to.
pub proof fn lemma_consolidation_mode_code_round_trip(v: ConsolidationMode, c: i32)
    ensures
        ConsolidationMode::spec_from_code(v.spec_code()) == Some(v),
        ConsolidationMode::spec_from_code(c) matches Some(w) ==> w.spec_code() == c,
        0 <= v.spec_code() < 5,
{
}

/// The wire codes follow the protocol's declaration order: the unspecified
/// value is 0 and each following value takes the next number.
pub proof fn lemma_protocol_codes()
    ensures
        SampleKind::Unspecified.spec_code() == 0,
        SampleKind::Put.spec_code() == 1,
        SampleKind::Delete.spec_code() == 2,
        CongestionControl::Unspecified.spec_code() == 0,
        CongestionControl::Block.spec_code() == 1,
        CongestionControl::Drop.spec_code() == 2,
        Priority::Unspecified.spec_code() == 0,
        Priority::RealTime.spec_code() == 1,
        Priority::InteractiveHigh.spec_code() == 2,
        Priority::InteractiveLow.spec_code() == 3,
        Priority::DataHigh.spec_code() == 4,
        Priority::Data.spec_code() == 5,
        Priority::DataLow.spec_code() == 6,
        Priority::Background.spec_code() == 7,
        Reliability::Unspecified.spec_code() == 0,
        Reliability::BestEffort.spec_code() == 1,
        Reliability::Reliable.spec_code() == 2,
        Locality::Unspecified.spec_code() == 0,
        Locality::Any.spec_code() == 1,
        Locality::SessionLocal.spec_code() == 2,
        Locality::Remote.spec_code() == 3,
        QueryTarget::Unspecified.spec_code() == 0,
        QueryTarget::BestMatching.spec_code() == 1,
        QueryTarget::All.spec_code() == 2,
        QueryTarget::AllComplete.spec_code() == 3,
        ConsolidationMode::Unspecified.spec_code() == 0,
        ConsolidationMode::Auto.spec_code() == 1,
        ConsolidationMode::NoConsolidation.spec_code() == 2,
        ConsolidationMode::Monotonic.spec_code() == 3,
        ConsolidationMode::Latest.spec_code() == 4,
{
}

} // verus!
