//! What the server asks of Zenoh for each request: the options of a put,
//! delete or get, of a declared publisher, subscriber, queryable or querier,
//! and of a reply, and how a query that reaches a declared queryable is put
//! in flight and announced. A zero timeout, an empty payload, an empty attachment and,
//! where Zenoh has its own default, an empty encoding are not passed on.

use vstd::prelude::*;

use crate::args::{
    DeclarePublisherArgs, DeclareQuerierArgs, DeclareQueryableArgs, DeclareSubscriberArgs,
    PublisherDeleteArgs, PublisherPutArgs, QuerierGetArgs, QueryReplyArgs, QueryReplyDeleteArgs,
    QueryReplyErrArgs, SessionDeleteArgs, SessionGetArgs, SessionPutArgs,
};
use crate::native::{
    map_congestion_control, map_consolidation, map_locality, map_priority, map_query_target,
    map_reliability, opt_attachment, spec_map_congestion_control, spec_map_consolidation,
    spec_map_locality, spec_map_priority, spec_map_query_target, spec_map_reliability,
    Consolidation, CongestionControl, Locality, Priority, QueryTarget, Reliability,
};

use crate::messages::{Query, QueryableEvent};
use crate::registry::{InFlight, InflightTable};

verus! {

/// The attachment that is passed on: none when it is empty.
pub open spec fn attachment_of(bytes: Seq<u8>) -> Option<Seq<u8>> {
    if bytes.len() == 0 {
        None
    } else {
        Some(bytes)
    }
}

/// The bytes of an optional byte vector.
pub open spec fn opt_bytes(o: Option<Vec<u8>>) -> Option<Seq<u8>> {
    match o {
        Some(v) => Some(v@),
        None => None,
    }
}

/// The characters of an optional string.
pub open spec fn opt_text(o: Option<String>) -> Option<Seq<char>> {
    match o {
        Some(s) => Some(s@),
        None => None,
    }
}

/// An encoding that is passed on only when it is not empty.
fn nonempty_encoding(encoding: String) -> (r: Option<String>)
    ensures
        encoding@.len() == 0 ==> r is None,
        encoding@.len() > 0 ==> (r matches Some(e) && e@ == encoding@),
{
    if encoding.unicode_len() == 0 {
        None
    } else {
        Some(encoding)
    }
}

/// A timeout that is passed on only when it is not zero.
pub fn nonzero_timeout(timeout_ms: u64) -> (r: Option<u64>)
    ensures
        r == (if timeout_ms == 0 {
            None
        } else {
            Some(timeout_ms)
        }),
{
    if timeout_ms == 0 {
        None
    } else {
        Some(timeout_ms)
    }
}

/// Options of a session-level put.
pub struct PutOptions {
    pub key_expr: String,
    pub payload: Vec<u8>,
    pub encoding: String,
    pub congestion_control: CongestionControl,
    pub priority: Priority,
    pub express: bool,
    pub allowed_destination: Locality,
    pub attachment: Option<Vec<u8>>,
}

pub fn put_options(args: SessionPutArgs) -> (o: PutOptions)
    ensures
        o.key_expr@ == args.key_expr@,
        o.payload@ == args.payload@,
        o.encoding@ == args.encoding@,
        o.congestion_control == spec_map_congestion_control(args.congestion_control),
        o.priority == spec_map_priority(args.priority),
        o.express == args.express,
        o.allowed_destination == spec_map_locality(args.allowed_destination),
        opt_bytes(o.attachment) == attachment_of(args.attachment@),
{
    let congestion_control = map_congestion_control(args.congestion_control);
    let priority = map_priority(args.priority);
    let allowed_destination = map_locality(args.allowed_destination);
    PutOptions {
        key_expr: args.key_expr,
        payload: args.payload,
        encoding: args.encoding,
        congestion_control,
        priority,
        express: args.express,
        allowed_destination,
        attachment: opt_attachment(args.attachment),
    }
}

/// Options of a session-level delete.
pub struct DeleteOptions {
    pub key_expr: String,
    pub congestion_control: CongestionControl,
    pub priority: Priority,
    pub express: bool,
    pub allowed_destination: Locality,
    pub attachment: Option<Vec<u8>>,
}

pub fn delete_options(args: SessionDeleteArgs) -> (o: DeleteOptions)
    ensures
        o.key_expr@ == args.key_expr@,
        o.congestion_control == spec_map_congestion_control(args.congestion_control),
        o.priority == spec_map_priority(args.priority),
        o.express == args.express,
        o.allowed_destination == spec_map_locality(args.allowed_destination),
        opt_bytes(o.attachment) == attachment_of(args.attachment@),
{
    let congestion_control = map_congestion_control(args.congestion_control);
    let priority = map_priority(args.priority);
    let allowed_destination = map_locality(args.allowed_destination);
    DeleteOptions {
        key_expr: args.key_expr,
        congestion_control,
        priority,
        express: args.express,
        allowed_destination,
        attachment: opt_attachment(args.attachment),
    }
}

/// A query payload and its encoding.
pub struct QueryPayload {
    pub payload: Vec<u8>,
    pub encoding: String,
}

/// A payload, with its encoding, is passed on only when it is not empty.
pub open spec fn payload_of(payload: Seq<u8>, encoding: Seq<char>) -> Option<(Seq<u8>, Seq<char>)> {
    if payload.len() == 0 {
        None
    } else {
        Some((payload, encoding))
    }
}

pub open spec fn opt_payload(o: Option<QueryPayload>) -> Option<(Seq<u8>, Seq<char>)> {
    match o {
        Some(p) => Some((p.payload@, p.encoding@)),
        None => None,
    }
}

fn query_payload(payload: Vec<u8>, encoding: String) -> (r: Option<QueryPayload>)
    ensures
        opt_payload(r) == payload_of(payload@, encoding@),
{
    if payload.len() == 0 {
        None
    } else {
        Some(QueryPayload { payload, encoding })
    }
}

/// Options of a session-level get.
pub struct GetOptions {
    pub selector: String,
    pub target: QueryTarget,
    pub consolidation: Consolidation,
    pub allowed_destination: Locality,
    pub timeout_ms: Option<u64>,
    pub payload: Option<QueryPayload>,
    pub attachment: Option<Vec<u8>>,
}

pub fn get_options(args: SessionGetArgs) -> (o: GetOptions)
    ensures
        o.selector@ == args.selector@,
        o.target == spec_map_query_target(args.target),
        o.consolidation == spec_map_consolidation(args.consolidation),
        o.allowed_destination == spec_map_locality(args.allowed_destination),
        o.timeout_ms == (if args.timeout_ms == 0 {
            None
        } else {
            Some(args.timeout_ms)
        }),
        opt_payload(o.payload) == payload_of(args.payload@, args.encoding@),
        opt_bytes(o.attachment) == attachment_of(args.attachment@),
{
    let target = map_query_target(args.target);
    let consolidation = map_consolidation(args.consolidation);
    let allowed_destination = map_locality(args.allowed_destination);
    GetOptions {
        selector: args.selector,
        target,
        consolidation,
        allowed_destination,
        timeout_ms: nonzero_timeout(args.timeout_ms),
        payload: query_payload(args.payload, args.encoding),
        attachment: opt_attachment(args.attachment),
    }
}

/// Options of a publisher declaration.
pub struct PublisherOptions {
    pub key_expr: String,
    pub encoding: String,
    pub congestion_control: CongestionControl,
    pub priority: Priority,
    pub express: bool,
    pub reliability: Reliability,
    pub allowed_destination: Locality,
}

pub fn publisher_options(args: DeclarePublisherArgs) -> (o: PublisherOptions)
    ensures
        o.key_expr@ == args.key_expr@,
        o.encoding@ == args.encoding@,
        o.congestion_control == spec_map_congestion_control(args.congestion_control),
        o.priority == spec_map_priority(args.priority),
        o.express == args.express,
        o.reliability == spec_map_reliability(args.reliability),
        o.allowed_destination == spec_map_locality(args.allowed_destination),
{
    let congestion_control = map_congestion_control(args.congestion_control);
    let priority = map_priority(args.priority);
    let reliability = map_reliability(args.reliability);
    let allowed_destination = map_locality(args.allowed_destination);
    PublisherOptions {
        key_expr: args.key_expr,
        encoding: args.encoding,
        congestion_control,
        priority,
        express: args.express,
        reliability,
        allowed_destination,
    }
}

/// Options of a subscriber declaration.
pub struct SubscriberOptions {
    pub key_expr: String,
    pub allowed_origin: Locality,
}

pub fn subscriber_options(args: DeclareSubscriberArgs) -> (o: SubscriberOptions)
    ensures
        o.key_expr@ == args.key_expr@,
        o.allowed_origin == spec_map_locality(args.allowed_origin),
{
    let allowed_origin = map_locality(args.allowed_origin);
    SubscriberOptions { key_expr: args.key_expr, allowed_origin }
}

/// Options of a queryable declaration.
pub struct QueryableOptions {
    pub key_expr: String,
    pub complete: bool,
    pub allowed_origin: Locality,
}

pub fn queryable_options(args: DeclareQueryableArgs) -> (o: QueryableOptions)
    ensures
        o.key_expr@ == args.key_expr@,
        o.complete == args.complete,
        o.allowed_origin == spec_map_locality(args.allowed_origin),
{
    let allowed_origin = map_locality(args.allowed_origin);
    QueryableOptions { key_expr: args.key_expr, complete: args.complete, allowed_origin }
}

/// Options of a querier declaration.
pub struct QuerierOptions {
    pub key_expr: String,
    pub target: QueryTarget,
    pub consolidation: Consolidation,
    pub allowed_destination: Locality,
    pub timeout_ms: Option<u64>,
}

pub fn querier_options(args: DeclareQuerierArgs) -> (o: QuerierOptions)
    ensures
        o.key_expr@ == args.key_expr@,
        o.target == spec_map_query_target(args.target),
        o.consolidation == spec_map_consolidation(args.consolidation),
        o.allowed_destination == spec_map_locality(args.allowed_destination),
        o.timeout_ms == (if args.timeout_ms == 0 {
            None
        } else {
            Some(args.timeout_ms)
        }),
{
    let target = map_query_target(args.target);
    let consolidation = map_consolidation(args.consolidation);
    let allowed_destination = map_locality(args.allowed_destination);
    QuerierOptions {
        key_expr: args.key_expr,
        target,
        consolidation,
        allowed_destination,
        timeout_ms: nonzero_timeout(args.timeout_ms),
    }
}

/// Options of a get through a declared querier.
pub struct QuerierGetOptions {
    pub parameters: String,
    pub payload: Option<QueryPayload>,
    pub attachment: Option<Vec<u8>>,
}

pub fn querier_get_options(args: QuerierGetArgs) -> (o: QuerierGetOptions)
    ensures
        o.parameters@ == args.parameters@,
        opt_payload(o.payload) == payload_of(args.payload@, args.encoding@),
        opt_bytes(o.attachment) == attachment_of(args.attachment@),
{
    QuerierGetOptions {
        parameters: args.parameters,
        payload: query_payload(args.payload, args.encoding),
        attachment: opt_attachment(args.attachment),
    }
}

/// Options of a value sent through a declared publisher, or of a reply: the
/// payload, an encoding when one is given, and an attachment when one is
/// given.
pub struct SampleOptions {
    pub payload: Vec<u8>,
    pub encoding: Option<String>,
    pub attachment: Option<Vec<u8>>,
}

/// The encoding that is passed on: none when it is empty.
pub open spec fn encoding_of(encoding: Seq<char>) -> Option<Seq<char>> {
    if encoding.len() == 0 {
        None
    } else {
        Some(encoding)
    }
}

pub fn publisher_put_options(args: PublisherPutArgs) -> (o: SampleOptions)
    ensures
        o.payload@ == args.payload@,
        opt_text(o.encoding) == encoding_of(args.encoding@),
        opt_bytes(o.attachment) == attachment_of(args.attachment@),
{
    SampleOptions {
        payload: args.payload,
        encoding: nonempty_encoding(args.encoding),
        attachment: opt_attachment(args.attachment),
    }
}

/// The attachment of a delete through a declared publisher.
pub fn publisher_delete_attachment(args: PublisherDeleteArgs) -> (a: Option<Vec<u8>>)
    ensures
        opt_bytes(a) == attachment_of(args.attachment@),
{
    opt_attachment(args.attachment)
}

/// The key and options of a reply to a query.
pub fn reply_options(args: QueryReplyArgs) -> (r: (String, SampleOptions))
    ensures
        r.0@ == args.key_expr@,
        r.1.payload@ == args.payload@,
        opt_text(r.1.encoding) == encoding_of(args.encoding@),
        opt_bytes(r.1.attachment) == attachment_of(args.attachment@),
{
    (
        args.key_expr,
        SampleOptions {
            payload: args.payload,
            encoding: nonempty_encoding(args.encoding),
            attachment: opt_attachment(args.attachment),
        },
    )
}

/// The payload and encoding of an error reply to a query.
pub fn reply_err_options(args: QueryReplyErrArgs) -> (r: (Vec<u8>, Option<String>))
    ensures
        r.0@ == args.payload@,
        opt_text(r.1) == encoding_of(args.encoding@),
{
    (args.payload, nonempty_encoding(args.encoding))
}

/// The key and attachment of a delete reply to a query.
pub fn reply_delete_options(args: QueryReplyDeleteArgs) -> (r: (String, Option<Vec<u8>>))
    ensures
        r.0@ == args.key_expr@,
        opt_bytes(r.1) == attachment_of(args.attachment@),
{
    (args.key_expr, opt_attachment(args.attachment))
}

/// What the server reads of a query that reached a declared queryable.
pub struct ReceivedQuery {
    pub selector: String,
    pub key_expr: String,
    pub parameters: String,
    pub payload: Option<Vec<u8>>,
    pub encoding: Option<String>,
    pub attachment: Option<Vec<u8>>,
}

/// The bytes of an optional byte vector, none when it is absent.
pub open spec fn bytes_or_empty(o: Option<Vec<u8>>) -> Seq<u8> {
    match o {
        Some(v) => v@,
        None => Seq::empty(),
    }
}

/// The characters of an optional string, none when it is absent.
pub open spec fn text_or_empty(o: Option<String>) -> Seq<char> {
    match o {
        Some(s) => s@,
        None => Seq::empty(),
    }
}

/// Puts a query that the queryable `handle` of `owner` received in flight
/// under the next query id, and builds the event that hands it to the
/// owner: the id and the query's fields, an absent payload, encoding or
/// attachment being sent empty.
pub fn admit_query<Q>(
    inflight: &mut InflightTable<Q>,
    owner: String,
    handle: u64,
    query: Q,
    fields: ReceivedQuery,
) -> (event: QueryableEvent)
    ensures
        final(inflight).next_id() == vstd::wrapping::u64_specs::wrapping_add(
            old(inflight).next_id(),
            1,
        ),
        final(inflight).entries() == old(inflight).entries().insert(
            old(inflight).next_id(),
            InFlight { owner, handle, query },
        ),
        event.query matches Some(q) && {
            &&& q.query_id == old(inflight).next_id()
            &&& q.selector@ == fields.selector@
            &&& q.key_expr@ == fields.key_expr@
            &&& q.parameters@ == fields.parameters@
            &&& q.payload@ == bytes_or_empty(fields.payload)
            &&& q.encoding@ == text_or_empty(fields.encoding)
            &&& q.attachment@ == bytes_or_empty(fields.attachment)
        },
{
    let query_id = inflight.register_query(owner, handle, query);
    let payload = match fields.payload {
        Some(p) => p,
        None => Vec::new(),
    };
    let encoding = match fields.encoding {
        Some(e) => e,
        None => String::new(),
    };
    let attachment = match fields.attachment {
        Some(a) => a,
        None => Vec::new(),
    };
    QueryableEvent {
        query: Some(
            Query {
                query_id,
                selector: fields.selector,
                key_expr: fields.key_expr,
                parameters: fields.parameters,
                payload,
                encoding,
                attachment,
            },
        ),
    }
}

/// Empty attachments and payloads are not passed on, every other one is
/// passed on unchanged (a payload with its encoding, whatever the encoding).
pub proof fn lemma_nonempty_passed_on(bytes: Seq<u8>, encoding: Seq<char>)
    ensures
        attachment_of(bytes) is None <==> bytes.len() == 0,
        attachment_of(bytes) matches Some(b) ==> b == bytes,
        payload_of(bytes, encoding) is None <==> bytes.len() == 0,
        payload_of(bytes, encoding) matches Some(p) ==> p == (bytes, encoding),
{
}

} // verus!
